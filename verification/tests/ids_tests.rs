use github_issues_migrator::ids::ObjectId;
use github_issues_migrator::models::inserted_id_texts;

fn hex(id: ObjectId) -> String {
    inserted_id_texts(vec![id]).remove(0)
}

fn fresh_id() -> ObjectId {
    ObjectId { bytes: bson::oid::ObjectId::new().bytes() }
}

#[test]
fn to_hex_writes_lower_case_pairs() {
    let id = ObjectId { bytes: [0x00, 0x01, 0x0a, 0x0f, 0x10, 0x7f, 0x80, 0xab, 0xcd, 0xef, 0xf0, 0xff] };
    assert_eq!(hex(id), "00010a0f107f80abcdeff0ff");
}

#[test]
fn to_hex_agrees_with_bson() {
    let id = fresh_id();
    assert_eq!(hex(id), bson::oid::ObjectId::from_bytes(id.bytes).to_hex());
    assert_eq!(hex(id).len(), 24);
}

#[test]
fn different_ids_have_different_texts() {
    let a = ObjectId { bytes: [1; 12] };
    let mut b_bytes = [1u8; 12];
    b_bytes[11] = 2;
    let b = ObjectId { bytes: b_bytes };
    assert_ne!(hex(a), hex(b));
}

