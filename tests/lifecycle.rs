use std::collections::HashMap;

use image_store::record::{ImageStruct, ServiceError};
use image_store::service::{parse_image_id, Command, Download, Outcome, Reply, Session, Step};

/// Two stores held in memory, answering as the real ones do when they work.
#[derive(Default)]
struct Stores {
    rows: HashMap<u128, ImageStruct>,
    blobs: HashMap<String, Vec<u8>>,
    calls: Vec<String>,
}

impl Stores {
    fn perform(&mut self, c: Command) -> Reply {
        match c {
            Command::PutBlob { key, content } => {
                self.calls.push(format!("put {}", key));
                self.blobs.insert(key, content);
                Reply::Done
            }
            Command::InsertRow { record } => {
                self.calls.push(format!("insert {}", record.uuid));
                if self.rows.contains_key(&record.uuid) {
                    Reply::Failed
                } else {
                    self.rows.insert(record.uuid, record);
                    Reply::Done
                }
            }
            Command::GetRow { id } => {
                self.calls.push(format!("get row {}", id));
                match self.rows.get(&id) {
                    Some(r) => Reply::Row(r.clone()),
                    None => Reply::Missing,
                }
            }
            Command::GetBlob { key } => {
                self.calls.push(format!("get blob {}", key));
                match self.blobs.get(&key) {
                    Some(b) => Reply::Blob(b.clone()),
                    None => Reply::Missing,
                }
            }
            Command::UpdateRow { id, file_name, owner } => {
                self.calls.push(format!("update {}", id));
                match self.rows.get_mut(&id) {
                    Some(r) => {
                        if let Some(n) = file_name {
                            r.file_name = n;
                        }
                        if let Some(o) = owner {
                            r.owner = o;
                        }
                        Reply::Done
                    }
                    None => Reply::Missing,
                }
            }
            Command::DeleteBlob { key } => {
                self.calls.push(format!("delete blob {}", key));
                self.blobs.remove(&key);
                Reply::Done
            }
            Command::DeleteRow { id } => {
                self.calls.push(format!("delete row {}", id));
                self.rows.remove(&id);
                Reply::Done
            }
        }
    }

    fn drive(&mut self, start: (Session, Step)) -> Result<Outcome, ServiceError> {
        let (mut session, mut step) = start;
        loop {
            match step {
                Step::Run(c) => {
                    let reply = self.perform(c);
                    step = session.resume(reply);
                }
                Step::Finish(r) => return r,
            }
        }
    }
}

fn created(r: Result<Outcome, ServiceError>) -> ImageStruct {
    match r {
        Ok(Outcome::Created(rec)) => rec,
        other => panic!("expected a created record, got {:?}", other),
    }
}

fn fetched(r: Result<Outcome, ServiceError>) -> Download {
    match r {
        Ok(Outcome::Fetched(d)) => d,
        other => panic!("expected a download, got {:?}", other),
    }
}

fn upload(s: &mut Stores, name: &str, content: Vec<u8>) -> ImageStruct {
    created(s.drive(Session::upload_new(Some(name.to_string()), None, Some(content))))
}

#[test]
fn upload_then_fetch_returns_same_content() {
    let mut s = Stores::default();
    let content: Vec<u8> = (0u8..=255).collect();
    let rec = created(s.drive(Session::upload(
        Some("photo.jpg".to_string()),
        Some("bob".to_string()),
        Some(content.clone()),
        7,
    )));
    assert_eq!(rec.uuid, 7);
    assert_eq!(rec.file_name, "photo.jpg");
    assert_eq!(rec.owner, "bob");
    let d = fetched(s.drive(Session::fetch(rec.uuid)));
    assert_eq!(d.content, content);
    assert_eq!(d.record.file_name, "photo.jpg");
    assert_eq!(d.record.owner, "bob");
    assert_eq!(d.content_type, "image/jpeg");
}

#[test]
fn upload_writes_content_before_row() {
    let mut s = Stores::default();
    created(s.drive(Session::upload(Some("a.gif".to_string()), None, Some(vec![1, 2]), 1)));
    assert_eq!(
        s.calls,
        vec![
            "put 00000000-0000-0000-0000-000000000001".to_string(),
            "insert 1".to_string()
        ]
    );
}

#[test]
fn two_uploads_get_distinct_identifiers() {
    let mut s = Stores::default();
    let a = upload(&mut s, "same.png", vec![5; 4]);
    let b = upload(&mut s, "same.png", vec![5; 4]);
    assert_ne!(a.uuid, b.uuid);
    assert_eq!(s.rows.len(), 2);
    assert_eq!(s.blobs.len(), 2);
}

#[test]
fn upload_without_content_is_invalid() {
    let mut s = Stores::default();
    let r = s.drive(Session::upload(Some("x.png".to_string()), None, None, 3));
    assert!(matches!(r, Err(ServiceError::InvalidRequest)));
    let r = s.drive(Session::upload(Some("x.png".to_string()), None, Some(Vec::new()), 3));
    assert!(matches!(r, Err(ServiceError::InvalidRequest)));
    assert!(s.calls.is_empty());
}

#[test]
fn upload_without_file_name_uses_empty_name() {
    let mut s = Stores::default();
    let rec = created(s.drive(Session::upload(None, None, Some(vec![9]), 4)));
    assert_eq!(rec.file_name, "");
    let d = fetched(s.drive(Session::fetch(4)));
    assert_eq!(d.content_type, "application/octet-stream");
}

#[test]
fn upload_under_used_identifier_fails_upstream() {
    let mut s = Stores::default();
    created(s.drive(Session::upload(Some("a.png".to_string()), None, Some(vec![1]), 8)));
    let r = s.drive(Session::upload(Some("b.png".to_string()), None, Some(vec![2]), 8));
    assert!(matches!(r, Err(ServiceError::UpstreamFailure)));
}

#[test]
fn failed_content_write_skips_the_row() {
    let (mut session, step) = Session::upload(Some("a.png".to_string()), None, Some(vec![1]), 2);
    assert!(matches!(step, Step::Run(Command::PutBlob { .. })));
    let next = session.resume(Reply::Failed);
    assert!(matches!(next, Step::Finish(Err(ServiceError::UpstreamFailure))));
}

#[test]
fn cat_scenario() {
    let mut s = Stores::default();
    let rec = upload(&mut s, "cat.png", vec![0xFF; 17]);
    assert_eq!(rec.file_name, "cat.png");
    assert_eq!(rec.owner, "anon");
    let d = fetched(s.drive(Session::fetch(rec.uuid)));
    assert_eq!(d.content, vec![0xFF; 17]);
    assert_eq!(d.content_type, "image/png");
    assert_eq!(d.disposition, "attachment; filename=\"cat.png\"");
    assert_eq!(d.record.uuid, rec.uuid);
}

#[test]
fn delete_is_idempotent() {
    let mut s = Stores::default();
    let r = s.drive(Session::delete(42));
    assert!(matches!(r, Ok(Outcome::Deleted)));
    let r = s.drive(Session::delete(42));
    assert!(matches!(r, Ok(Outcome::Deleted)));
}

#[test]
fn delete_removes_content_then_row() {
    let mut s = Stores::default();
    let rec = upload(&mut s, "dog.png", vec![1, 2, 3]);
    s.calls.clear();
    let r = s.drive(Session::delete(rec.uuid));
    assert!(matches!(r, Ok(Outcome::Deleted)));
    assert!(s.calls[0].starts_with("delete blob "));
    assert!(s.calls[1].starts_with("delete row "));
    assert!(s.rows.is_empty());
    assert!(s.blobs.is_empty());
}

#[test]
fn fetch_after_delete_is_not_found() {
    let mut s = Stores::default();
    let rec = upload(&mut s, "cat.png", vec![0xFF; 17]);
    let r = s.drive(Session::delete(rec.uuid));
    assert!(matches!(r, Ok(Outcome::Deleted)));
    let r = s.drive(Session::fetch(rec.uuid));
    assert!(matches!(r, Err(ServiceError::NotFound)));
}

#[test]
fn fetch_of_unknown_id_is_not_found() {
    let mut s = Stores::default();
    let r = s.drive(Session::fetch(99));
    assert!(matches!(r, Err(ServiceError::NotFound)));
}

#[test]
fn row_without_content_is_not_found() {
    let mut s = Stores::default();
    let rec = upload(&mut s, "cat.png", vec![1]);
    s.blobs.clear();
    let r = s.drive(Session::fetch(rec.uuid));
    assert!(matches!(r, Err(ServiceError::NotFound)));
}

#[test]
fn update_without_fields_is_invalid() {
    let mut s = Stores::default();
    let rec = upload(&mut s, "cat.png", vec![1]);
    s.calls.clear();
    let r = s.drive(Session::update(rec.uuid, None, None));
    assert!(matches!(r, Err(ServiceError::InvalidRequest)));
    let r = s.drive(Session::update(rec.uuid, Some(String::new()), Some(String::new())));
    assert!(matches!(r, Err(ServiceError::InvalidRequest)));
    assert!(s.calls.is_empty());
}

#[test]
fn update_owner_keeps_file_name() {
    let mut s = Stores::default();
    let rec = upload(&mut s, "cat.png", vec![0xFF; 17]);
    let r = s.drive(Session::update(rec.uuid, None, Some("alice".to_string())));
    assert!(matches!(r, Ok(Outcome::Updated)));
    let d = fetched(s.drive(Session::fetch(rec.uuid)));
    assert_eq!(d.record.owner, "alice");
    assert_eq!(d.record.file_name, "cat.png");
    assert_eq!(d.content, vec![0xFF; 17]);
}

#[test]
fn update_file_name_keeps_owner() {
    let mut s = Stores::default();
    let rec = upload(&mut s, "cat.png", vec![3]);
    let r = s.drive(Session::update(rec.uuid, Some("kitten.gif".to_string()), Some(String::new())));
    assert!(matches!(r, Ok(Outcome::Updated)));
    let d = fetched(s.drive(Session::fetch(rec.uuid)));
    assert_eq!(d.record.owner, "anon");
    assert_eq!(d.record.file_name, "kitten.gif");
    assert_eq!(d.content_type, "image/gif");
    assert_eq!(d.disposition, "attachment; filename=\"kitten.gif\"");
}

#[test]
fn update_of_unknown_id_is_not_found() {
    let mut s = Stores::default();
    let r = s.drive(Session::update(5, Some("a.png".to_string()), None));
    assert!(matches!(r, Err(ServiceError::NotFound)));
}

#[test]
fn finished_session_takes_no_reply() {
    let (mut session, _) = Session::fetch(1);
    let _ = session.resume(Reply::Missing);
    assert!(matches!(session.resume(Reply::Done), Step::Finish(Err(ServiceError::InvalidRequest))));
}

#[test]
fn unexpected_reply_is_upstream_failure() {
    let (mut session, _) = Session::fetch(1);
    assert!(matches!(session.resume(Reply::Done), Step::Finish(Err(ServiceError::UpstreamFailure))));
}

#[test]
fn identifiers_parse_from_text() {
    assert_eq!(
        parse_image_id("a1a2a3a4-b1b2-c1c2-d1d2-d3d4d5d6d7d8"),
        Ok(0xa1a2a3a4b1b2c1c2d1d2d3d4d5d6d7d8)
    );
    assert_eq!(parse_image_id("not-a-uuid"), Err(ServiceError::InvalidRequest));
    assert_eq!(parse_image_id(""), Err(ServiceError::InvalidRequest));
}

#[test]
fn object_key_is_hyphenated_lower_hex() {
    match Session::delete(0xa1a2a3a4b1b2c1c2d1d2d3d4d5d6d7d8).1 {
        Step::Run(Command::DeleteBlob { key }) => {
            assert_eq!(key, "a1a2a3a4-b1b2-c1c2-d1d2-d3d4d5d6d7d8")
        }
        other => panic!("unexpected step {:?}", other),
    }
}
