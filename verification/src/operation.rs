//! The closed set of document-edit variants, with content fingerprinting and
//! a one-line diagnostic rendering for each variant.

use vstd::prelude::*;
use vstd::string::StringExecFns;

use crate::digest::{is_hex_seq, sha256_hex, sha256_hex_digest};
use crate::Sha;

verus! {

/// An externally supplied reference-plane payload. The log treats it as
/// opaque: all it asks of a plane is a stable textual representation, used
/// for fingerprinting and printing.
#[derive(Debug, PartialEq)]
pub struct Plane {
    pub repr: String,
}

impl View for Plane {
    type V = Seq<char>;

    open spec fn view(&self) -> Seq<char> {
        self.repr@
    }
}

impl Clone for Plane {
    fn clone(&self) -> (r: Self)
        ensures
            r == *self,
    {
        Plane { repr: self.repr.clone() }
    }
}

/// A numeric parameter of an edit, held as its canonical decimal text.
/// The log never computes with these values; it only fingerprints and prints
/// them, so the stable textual form is the value the log carries.
#[derive(Debug, PartialEq)]
pub struct Scalar {
    pub text: String,
}

impl View for Scalar {
    type V = Seq<char>;

    open spec fn view(&self) -> Seq<char> {
        self.text@
    }
}

impl Clone for Scalar {
    fn clone(&self) -> (r: Self)
        ensures
            r == *self,
    {
        Scalar { text: self.text.clone() }
    }
}

/// One recorded edit of the design document. Values are immutable once
/// constructed; every consumer matches exhaustively on the variants.
#[derive(Debug, PartialEq)]
pub enum Operation {
    Create { nonce: String },
    Describe { description: String, commit: Sha },
    NewPlane { name: String, plane: Plane },
    NewSketch { name: String, plane_name: String, unique_id: String },
    NewRectangle { sketch_id: String, x: Scalar, y: Scalar, width: Scalar, height: Scalar },
    NewCircle { sketch_id: String, x: Scalar, y: Scalar, radius: Scalar },
    NewExtrusion {
        name: String,
        unique_id: String,
        sketch_id: String,
        click_x: Scalar,
        click_y: Scalar,
        depth: Scalar,
    },
    ModifyExtrusionDepth { unique_id: String, depth: Scalar },
}

/// The mathematical model of an operation: the same variants over plain
/// character sequences.
pub enum OpView {
    Create { nonce: Seq<char> },
    Describe { description: Seq<char>, commit: Seq<char> },
    NewPlane { name: Seq<char>, plane: Seq<char> },
    NewSketch { name: Seq<char>, plane_name: Seq<char>, unique_id: Seq<char> },
    NewRectangle {
        sketch_id: Seq<char>,
        x: Seq<char>,
        y: Seq<char>,
        width: Seq<char>,
        height: Seq<char>,
    },
    NewCircle { sketch_id: Seq<char>, x: Seq<char>, y: Seq<char>, radius: Seq<char> },
    NewExtrusion {
        name: Seq<char>,
        unique_id: Seq<char>,
        sketch_id: Seq<char>,
        click_x: Seq<char>,
        click_y: Seq<char>,
        depth: Seq<char>,
    },
    ModifyExtrusionDepth { unique_id: Seq<char>, depth: Seq<char> },
}

impl View for Operation {
    type V = OpView;

    open spec fn view(&self) -> OpView {
        match self {
            Operation::Create { nonce } => OpView::Create { nonce: nonce@ },
            Operation::Describe { description, commit } => OpView::Describe {
                description: description@,
                commit: commit@,
            },
            Operation::NewPlane { name, plane } => OpView::NewPlane {
                name: name@,
                plane: plane@,
            },
            Operation::NewSketch { name, plane_name, unique_id } => OpView::NewSketch {
                name: name@,
                plane_name: plane_name@,
                unique_id: unique_id@,
            },
            Operation::NewRectangle { sketch_id, x, y, width, height } => OpView::NewRectangle {
                sketch_id: sketch_id@,
                x: x@,
                y: y@,
                width: width@,
                height: height@,
            },
            Operation::NewCircle { sketch_id, x, y, radius } => OpView::NewCircle {
                sketch_id: sketch_id@,
                x: x@,
                y: y@,
                radius: radius@,
            },
            Operation::NewExtrusion {
                name,
                unique_id,
                sketch_id,
                click_x,
                click_y,
                depth,
            } => OpView::NewExtrusion {
                name: name@,
                unique_id: unique_id@,
                sketch_id: sketch_id@,
                click_x: click_x@,
                click_y: click_y@,
                depth: depth@,
            },
            Operation::ModifyExtrusionDepth { unique_id, depth } => OpView::ModifyExtrusionDepth {
                unique_id: unique_id@,
                depth: depth@,
            },
        }
    }
}

impl Clone for Operation {
    fn clone(&self) -> (r: Self)
        ensures
            r == *self,
    {
        match self {
            Operation::Create { nonce } => Operation::Create { nonce: nonce.clone() },
            Operation::Describe { description, commit } => Operation::Describe {
                description: description.clone(),
                commit: commit.clone(),
            },
            Operation::NewPlane { name, plane } => Operation::NewPlane {
                name: name.clone(),
                plane: plane.clone(),
            },
            Operation::NewSketch { name, plane_name, unique_id } => Operation::NewSketch {
                name: name.clone(),
                plane_name: plane_name.clone(),
                unique_id: unique_id.clone(),
            },
            Operation::NewRectangle { sketch_id, x, y, width, height } => {
                Operation::NewRectangle {
                    sketch_id: sketch_id.clone(),
                    x: x.clone(),
                    y: y.clone(),
                    width: width.clone(),
                    height: height.clone(),
                }
            },
            Operation::NewCircle { sketch_id, x, y, radius } => Operation::NewCircle {
                sketch_id: sketch_id.clone(),
                x: x.clone(),
                y: y.clone(),
                radius: radius.clone(),
            },
            Operation::NewExtrusion {
                name,
                unique_id,
                sketch_id,
                click_x,
                click_y,
                depth,
            } => Operation::NewExtrusion {
                name: name.clone(),
                unique_id: unique_id.clone(),
                sketch_id: sketch_id.clone(),
                click_x: click_x.clone(),
                click_y: click_y.clone(),
                depth: depth.clone(),
            },
            Operation::ModifyExtrusionDepth { unique_id, depth } => {
                Operation::ModifyExtrusionDepth {
                    unique_id: unique_id.clone(),
                    depth: depth.clone(),
                }
            },
        }
    }
}

/// The exact text that an operation's content fingerprint is computed from:
/// a fixed salt, then the variant's fields in declaration order, joined by a
/// single dash. This joining scheme is part of the wire contract; changing it
/// would invalidate previously computed fingerprints.
pub open spec fn hash_input(op: OpView) -> Seq<char> {
    match op {
        OpView::Create { nonce } => "cadmium"@ + nonce,
        OpView::Describe { description, commit } => "cadmium"@ + description + "-"@ + commit,
        OpView::NewPlane { name, plane } => "cadmium"@ + name + "-"@ + plane,
        OpView::NewSketch { name, plane_name, unique_id } => "cadmium"@ + name + "-"@
            + plane_name + "-"@ + unique_id,
        OpView::NewRectangle { sketch_id, x, y, width, height } => "cadmium"@ + sketch_id + "-"@
            + x + "-"@ + y + "-"@ + width + "-"@ + height,
        OpView::NewCircle { sketch_id, x, y, radius } => "cadmium"@ + sketch_id + "-"@ + x + "-"@
            + y + "-"@ + radius,
        OpView::NewExtrusion { name, unique_id, sketch_id, click_x, click_y, depth } => "cadmium"@
            + name + "-"@ + unique_id + "-"@ + sketch_id + "-"@ + click_x + "-"@ + click_y + "-"@
            + depth,
        OpView::ModifyExtrusionDepth { unique_id, depth } => "cadmium"@ + unique_id + "-"@
            + depth,
    }
}

/// The content fingerprint of an operation: the digest of its salted,
/// dash-joined field text.
pub open spec fn op_content_hash(op: OpView) -> Seq<char> {
    sha256_hex(hash_input(op))
}

/// The one-line diagnostic rendering of each variant.
pub open spec fn op_pretty(op: OpView) -> Seq<char> {
    match op {
        OpView::Create { nonce } => "Create: "@ + nonce,
        OpView::Describe { description, commit } => "Describe: "@ + commit + " '"@ + description
            + "'"@,
        OpView::NewPlane { name, plane: _ } => "NewPlane: '"@ + name + "'"@,
        OpView::NewSketch { name, plane_name, unique_id: _ } => "NewSketch: '"@ + name
            + "' on plane '"@ + plane_name + "'"@,
        OpView::NewRectangle { sketch_id, x, y, width, height } => "NewRectangle: "@ + x + " "@
            + y + " "@ + width + " "@ + height + " on '"@ + sketch_id + "'"@,
        OpView::NewCircle { sketch_id, x, y, radius } => "NewCircle: ("@ + x + ","@ + y
            + ") radius: "@ + radius + " on '"@ + sketch_id + "'"@,
        OpView::NewExtrusion { name, unique_id: _, sketch_id, click_x, click_y, depth } =>
            "NewExtrusion: '"@ + name + "' on '"@ + sketch_id + "' ("@ + click_x + ","@ + click_y
            + ") depth: "@ + depth,
        OpView::ModifyExtrusionDepth { unique_id, depth } => "ModifyExtrusionDepth: "@ + unique_id
            + " to "@ + depth,
    }
}

impl Operation {
    /// Builds the exact text that this operation's fingerprint is computed
    /// from.
    fn hash_text(&self) -> (r: String)
        ensures
            r@ == hash_input(self@),
    {
        let mut s = String::from_str("cadmium");
        match self {
            Operation::Create { nonce } => {
                s.append(nonce.as_str());
            },
            Operation::Describe { description, commit } => {
                s.append(description.as_str());
                s.append("-");
                s.append(commit.as_str());
            },
            Operation::NewPlane { name, plane } => {
                s.append(name.as_str());
                s.append("-");
                s.append(plane.repr.as_str());
            },
            Operation::NewSketch { name, plane_name, unique_id } => {
                s.append(name.as_str());
                s.append("-");
                s.append(plane_name.as_str());
                s.append("-");
                s.append(unique_id.as_str());
            },
            Operation::NewRectangle { sketch_id, x, y, width, height } => {
                s.append(sketch_id.as_str());
                s.append("-");
                s.append(x.text.as_str());
                s.append("-");
                s.append(y.text.as_str());
                s.append("-");
                s.append(width.text.as_str());
                s.append("-");
                s.append(height.text.as_str());
            },
            Operation::NewCircle { sketch_id, x, y, radius } => {
                s.append(sketch_id.as_str());
                s.append("-");
                s.append(x.text.as_str());
                s.append("-");
                s.append(y.text.as_str());
                s.append("-");
                s.append(radius.text.as_str());
            },
            Operation::NewExtrusion { name, unique_id, sketch_id, click_x, click_y, depth } => {
                s.append(name.as_str());
                s.append("-");
                s.append(unique_id.as_str());
                s.append("-");
                s.append(sketch_id.as_str());
                s.append("-");
                s.append(click_x.text.as_str());
                s.append("-");
                s.append(click_y.text.as_str());
                s.append("-");
                s.append(depth.text.as_str());
            },
            Operation::ModifyExtrusionDepth { unique_id, depth } => {
                s.append(unique_id.as_str());
                s.append("-");
                s.append(depth.text.as_str());
            },
        }
        s
    }

    /// The operation's content fingerprint: deterministic in the operation's
    /// value, 64 lowercase hexadecimal characters.
    pub fn hash(&self) -> (r: Sha)
        ensures
            r@ == op_content_hash(self@),
            r@.len() == 64,
            is_hex_seq(r@),
    {
        let input = self.hash_text();
        sha256_hex_digest(input.as_str())
    }

    /// A deterministic single-line summary of the operation, for diagnostics
    /// only: it plays no part in identity or hashing.
    pub fn pretty_print(&self) -> (r: String)
        ensures
            r@ == op_pretty(self@),
    {
        let mut s = String::new();
        match self {
            Operation::Create { nonce } => {
                s.append("Create: ");
                s.append(nonce.as_str());
            },
            Operation::Describe { description, commit } => {
                s.append("Describe: ");
                s.append(commit.as_str());
                s.append(" '");
                s.append(description.as_str());
                s.append("'");
            },
            Operation::NewPlane { name, plane: _ } => {
                s.append("NewPlane: '");
                s.append(name.as_str());
                s.append("'");
            },
            Operation::NewSketch { name, plane_name, unique_id: _ } => {
                s.append("NewSketch: '");
                s.append(name.as_str());
                s.append("' on plane '");
                s.append(plane_name.as_str());
                s.append("'");
            },
            Operation::NewRectangle { sketch_id, x, y, width, height } => {
                s.append("NewRectangle: ");
                s.append(x.text.as_str());
                s.append(" ");
                s.append(y.text.as_str());
                s.append(" ");
                s.append(width.text.as_str());
                s.append(" ");
                s.append(height.text.as_str());
                s.append(" on '");
                s.append(sketch_id.as_str());
                s.append("'");
            },
            Operation::NewCircle { sketch_id, x, y, radius } => {
                s.append("NewCircle: (");
                s.append(x.text.as_str());
                s.append(",");
                s.append(y.text.as_str());
                s.append(") radius: ");
                s.append(radius.text.as_str());
                s.append(" on '");
                s.append(sketch_id.as_str());
                s.append("'");
            },
            Operation::NewExtrusion { name, unique_id: _, sketch_id, click_x, click_y, depth } => {
                s.append("NewExtrusion: '");
                s.append(name.as_str());
                s.append("' on '");
                s.append(sketch_id.as_str());
                s.append("' (");
                s.append(click_x.text.as_str());
                s.append(",");
                s.append(click_y.text.as_str());
                s.append(") depth: ");
                s.append(depth.text.as_str());
            },
            Operation::ModifyExtrusionDepth { unique_id, depth } => {
                s.append("ModifyExtrusionDepth: ");
                s.append(unique_id.as_str());
                s.append(" to ");
                s.append(depth.text.as_str());
            },
        }
        s
    }
}

} // verus!
