use oplog::{EvolutionLog, OpLog, Operation, Plane, Scalar};
use sha2::{Digest, Sha256};

fn hex_digest(input: &str) -> String {
    let digest = Sha256::digest(input.as_bytes());
    let mut out = String::new();
    for byte in digest {
        out.push_str(&format!("{:02x}", byte));
    }
    out
}

fn sample_plane() -> Plane {
    Plane { repr: "Plane(XY)".to_string() }
}

fn scalar(text: &str) -> Scalar {
    Scalar { text: text.to_string() }
}

#[test]
fn hash_is_deterministic_and_hex_shaped() {
    let op = Operation::NewSketch {
        name: "Sketch1".to_string(),
        plane_name: "XY".to_string(),
        unique_id: "s-001".to_string(),
    };
    let first = op.hash();
    let second = op.hash();
    assert_eq!(first, second);
    assert_eq!(first.len(), 64);
    assert!(first.chars().all(|c| c.is_ascii_hexdigit() && !c.is_ascii_uppercase()));
}

#[test]
fn hash_fixes_the_wire_encoding() {
    let create = Operation::Create { nonce: "Hello World".to_string() };
    assert_eq!(create.hash(), hex_digest("cadmiumHello World"));

    let describe = Operation::Describe {
        description: "first cut".to_string(),
        commit: "abc123".to_string(),
    };
    assert_eq!(describe.hash(), hex_digest("cadmiumfirst cut-abc123"));

    let rect = Operation::NewRectangle {
        sketch_id: "s-001".to_string(),
        x: scalar("1.5"),
        y: scalar("-2"),
        width: scalar("10"),
        height: scalar("0.25"),
    };
    assert_eq!(rect.hash(), hex_digest("cadmiums-001-1.5--2-10-0.25"));

    let extrusion = Operation::NewExtrusion {
        name: "Ext1".to_string(),
        unique_id: "e-001".to_string(),
        sketch_id: "s-001".to_string(),
        click_x: scalar("3"),
        click_y: scalar("4"),
        depth: scalar("5"),
    };
    assert_eq!(extrusion.hash(), hex_digest("cadmiumExt1-e-001-s-001-3-4-5"));
}

#[test]
fn hash_distinguishes_operations() {
    let a = Operation::Create { nonce: "one".to_string() };
    let b = Operation::Create { nonce: "two".to_string() };
    assert_ne!(a.hash(), b.hash());

    let plane = Operation::NewPlane { name: "one".to_string(), plane: sample_plane() };
    assert_ne!(a.hash(), plane.hash());

    let circle = Operation::NewCircle {
        sketch_id: "s".to_string(),
        x: scalar("1"),
        y: scalar("2"),
        radius: scalar("3"),
    };
    let modified = Operation::NewCircle {
        sketch_id: "s".to_string(),
        x: scalar("1"),
        y: scalar("2"),
        radius: scalar("4"),
    };
    assert_ne!(circle.hash(), modified.hash());
}

#[test]
fn empty_oplog_has_no_commits() {
    let log = OpLog::new();
    assert_eq!(log.get_length(), 0);
    assert!(log.last().is_none());
    assert!(log.nth(0).is_none());
}

#[test]
fn init_seeds_exactly_one_root() {
    let mut log = OpLog::new();
    log.init();
    assert_eq!(log.get_length(), 1);
    let root = log.last().unwrap();
    assert_eq!(root.parent, "");
    assert!(matches!(root.operation, Operation::Create { .. }));
    assert_eq!(root.content_hash, hex_digest("cadmiumHello World"));
    assert_eq!(root.id, hex_digest(&format!("{}-", hex_digest("cadmiumHello World"))));
}

#[test]
fn oplog_append_derives_both_fingerprints() {
    let mut log = OpLog::new();
    log.init();
    let root = log.last().unwrap();
    let op = Operation::NewPlane { name: "Front".to_string(), plane: sample_plane() };
    let commit = log.append(&root.id, op.clone());
    assert_eq!(log.get_length(), 2);
    assert_eq!(commit.operation, op);
    assert_eq!(commit.parent, root.id);
    let content = hex_digest("cadmiumFront-Plane(XY)");
    assert_eq!(commit.content_hash, content);
    assert_eq!(commit.id, hex_digest(&format!("{}-{}", content, root.id)));
    assert_eq!(log.last().unwrap(), commit);
    assert_eq!(log.nth(1).unwrap(), commit);
}

#[test]
fn from_commits_restores_the_same_history() {
    let mut log = OpLog::new();
    log.init();
    let root = log.last().unwrap();
    log.append(&root.id, Operation::Create { nonce: "n".to_string() });
    let commits = vec![log.nth(0).unwrap(), log.nth(1).unwrap()];
    let restored = OpLog::from_commits(commits);
    assert_eq!(restored.get_length(), 2);
    assert_eq!(restored.nth(0).unwrap(), log.nth(0).unwrap());
    assert_eq!(restored.nth(1).unwrap(), log.nth(1).unwrap());
}

#[test]
fn fresh_log_starts_at_the_root() {
    let evolution = EvolutionLog::new();
    assert_eq!(evolution.oplog.get_length(), 1);
    let root = evolution.oplog.last().unwrap();
    assert_eq!(evolution.cursor, root.id);
    assert_eq!(root.parent, "");
}

#[test]
fn session_nonce_gives_each_log_its_own_root() {
    let first = EvolutionLog::new_with_nonce("session-1".to_string());
    let second = EvolutionLog::new_with_nonce("session-2".to_string());
    let root_one = first.oplog.last().unwrap();
    let root_two = second.oplog.last().unwrap();
    assert_eq!(root_one.content_hash, hex_digest("cadmiumsession-1"));
    assert_eq!(root_one.id, hex_digest(&format!("{}-", root_one.content_hash)));
    assert_ne!(root_one.id, root_two.id);

    let default = EvolutionLog::new();
    let explicit = EvolutionLog::new_with_nonce("Hello World".to_string());
    assert_eq!(default.cursor, explicit.cursor);
}

#[test]
fn append_advances_cursor_and_chains_from_it() {
    let mut evolution = EvolutionLog::new();
    let before = evolution.cursor.clone();
    let len_before = evolution.oplog.get_length();
    let returned = evolution.append(Operation::NewPlane {
        name: "Top".to_string(),
        plane: sample_plane(),
    });
    assert_eq!(evolution.oplog.get_length(), len_before + 1);
    let tail = evolution.oplog.last().unwrap();
    assert_eq!(tail.parent, before);
    assert_eq!(returned, evolution.cursor);
    assert_eq!(evolution.cursor, tail.id);
}

#[test]
fn checkout_existing_moves_only_the_cursor() {
    let mut evolution = EvolutionLog::new();
    let root_id = evolution.cursor.clone();
    evolution.append(Operation::NewPlane { name: "Top".to_string(), plane: sample_plane() });
    assert_ne!(evolution.cursor, root_id);
    let result = evolution.checkout(root_id.clone());
    assert!(result.is_ok());
    assert_eq!(evolution.cursor, root_id);
    assert_eq!(evolution.oplog.get_length(), 2);
}

#[test]
fn checkout_absent_fails_and_changes_nothing() {
    let mut evolution = EvolutionLog::new();
    let cursor_before = evolution.cursor.clone();
    let missing = "deadbeef".to_string();
    let result = evolution.checkout(missing.clone());
    match result {
        Ok(()) => panic!("checkout of an absent fingerprint succeeded"),
        Err(message) => {
            assert_eq!(message, format!("SHA {} not found in oplog", missing));
        },
    }
    assert_eq!(evolution.cursor, cursor_before);
    assert_eq!(evolution.oplog.get_length(), 1);
}

#[test]
fn cherry_pick_replays_the_operation_as_a_new_commit() {
    let mut evolution = EvolutionLog::new();
    let source_id = evolution.append(Operation::NewPlane {
        name: "Top".to_string(),
        plane: sample_plane(),
    });
    // the cursor now sits on the source itself, so the replay's parent (the
    // source's id) differs from the source's own parent (the root), and with
    // it the derived id
    let result = evolution.cherry_pick(source_id.clone());
    assert!(result.is_ok());
    assert_eq!(evolution.oplog.get_length(), 3);
    let source = evolution.oplog.nth(1).unwrap();
    let replayed = evolution.oplog.nth(2).unwrap();
    assert_eq!(replayed.operation, source.operation);
    assert_ne!(replayed.parent, source.parent);
    assert_ne!(replayed.id, source.id);
    assert_eq!(replayed.parent, source_id);
    assert_eq!(evolution.cursor, replayed.id);
}

#[test]
fn cherry_pick_absent_fails_and_changes_nothing() {
    let mut evolution = EvolutionLog::new();
    let cursor_before = evolution.cursor.clone();
    let missing = "0000".to_string();
    let result = evolution.cherry_pick(missing.clone());
    match result {
        Ok(()) => panic!("cherry-pick of an absent fingerprint succeeded"),
        Err(message) => {
            assert_eq!(message, format!("SHA {} not found in oplog", missing));
        },
    }
    assert_eq!(evolution.oplog.get_length(), 1);
    assert_eq!(evolution.cursor, cursor_before);
}

#[test]
fn cherry_pick_twice_gives_distinct_commits_with_equal_operations() {
    let mut evolution = EvolutionLog::new();
    let source_id = evolution.append(Operation::NewSketch {
        name: "Sketch1".to_string(),
        plane_name: "Top".to_string(),
        unique_id: "s-001".to_string(),
    });
    evolution.cherry_pick(source_id.clone()).unwrap();
    evolution.cherry_pick(source_id.clone()).unwrap();
    assert_eq!(evolution.oplog.get_length(), 4);
    let first = evolution.oplog.nth(2).unwrap();
    let second = evolution.oplog.nth(3).unwrap();
    assert_eq!(first.operation, second.operation);
    assert_ne!(first.id, second.id);
    assert_ne!(first.parent, second.parent);
    assert_eq!(second.parent, first.id);
}

#[test]
fn scenario_append_checkout_cherry_pick() {
    let mut evolution = EvolutionLog::new();
    assert_eq!(evolution.oplog.get_length(), 1);
    let root = evolution.oplog.nth(0).unwrap();
    assert_eq!(evolution.cursor, root.id);

    let new_id = evolution.append(Operation::NewPlane {
        name: "XY".to_string(),
        plane: sample_plane(),
    });
    assert_eq!(evolution.oplog.get_length(), 2);
    assert_eq!(evolution.cursor, new_id);
    let second = evolution.oplog.nth(1).unwrap();
    assert_eq!(second.parent, root.id);

    evolution.checkout(root.id.clone()).unwrap();
    assert_eq!(evolution.cursor, root.id);
    assert_eq!(evolution.oplog.get_length(), 2);

    evolution.cherry_pick(new_id.clone()).unwrap();
    assert_eq!(evolution.oplog.get_length(), 3);
    let third = evolution.oplog.nth(2).unwrap();
    assert_eq!(evolution.cursor, third.id);
    assert_eq!(third.operation, second.operation);
    assert_eq!(third.parent, root.id);
    assert_ne!(third.parent, second.id);
}

#[test]
fn cursor_always_names_a_commit_in_the_log() {
    let mut evolution = EvolutionLog::new();
    let ids = |e: &EvolutionLog| -> Vec<String> {
        let mut out = Vec::new();
        let mut i = 0;
        while let Some(c) = e.oplog.nth(i) {
            out.push(c.id);
            i += 1;
        }
        out
    };
    assert!(ids(&evolution).contains(&evolution.cursor));
    let sha = evolution.append(Operation::Create { nonce: "n1".to_string() });
    assert!(ids(&evolution).contains(&evolution.cursor));
    evolution.checkout(sha).unwrap();
    assert!(ids(&evolution).contains(&evolution.cursor));
    assert!(evolution.checkout("absent".to_string()).is_err());
    assert!(ids(&evolution).contains(&evolution.cursor));
    assert!(evolution.cherry_pick("absent".to_string()).is_err());
    assert!(ids(&evolution).contains(&evolution.cursor));
}
