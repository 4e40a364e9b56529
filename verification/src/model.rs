//! The rows that the library decides about, as plain values.

use vstd::prelude::*;
use crate::date::Date;
use crate::id::Uuid;
use crate::role::Role;

verus! {

/// A point in time: the milliseconds since 1970, rounded down, and the
/// nanoseconds beyond them.
#[derive(Clone, Copy, Debug, PartialEq, Eq, Structural)]
pub struct Time {
    pub millis: i64,
    pub nanos: u32,
}

/// What became of looking something up.
pub enum Lookup<T> {
    Found(T),
    Missing,
    /// The database could not be asked.
    Failed,
}

pub struct User {
    pub id: Uuid,
    pub username: String,
    pub slug: String,
    pub display_name: String,
    pub email: Option<String>,
    pub is_system_admin: bool,
    pub created_at: Time,
    pub updated_at: Time,
}

pub struct Organization {
    pub id: Uuid,
    pub name: String,
    pub slug: String,
    pub created_at: Time,
    pub updated_at: Time,
}

/// A user's place in an organization.
pub struct Membership {
    pub id: Uuid,
    pub user_id: Uuid,
    pub organization_id: Uuid,
    pub role: Role,
    pub instrument_ids: Vec<Uuid>,
    pub is_principal: bool,
    pub principal_instrument_ids: Vec<Uuid>,
    pub created_at: Time,
    pub updated_at: Time,
}

/// The abstract piece that arrangements belong to.
pub struct Work {
    pub id: Uuid,
    pub title: String,
    pub composer: Option<String>,
    pub created_by: Option<Uuid>,
    pub created_at: Time,
    pub updated_at: Time,
}

pub struct Arrangement {
    pub id: Uuid,
    pub organization_id: Uuid,
    pub slug: String,
    pub title: String,
    pub work_id: Option<Uuid>,
    pub instrumentation: Option<String>,
    pub arranger: Option<String>,
    pub publisher: Option<String>,
    pub purchase_date: Option<Date>,
    pub license_notes: Option<String>,
    pub copy_count_allowed: Option<i32>,
    pub status: String,
    pub duration_seconds: Option<i32>,
    pub difficulty: Option<i16>,
    pub difficulty_ratings: Option<serde_json::Value>,
    pub difficulty_notes: Option<String>,
    pub created_at: Time,
    pub updated_at: Time,
    pub deleted_at: Option<Time>,
}

/// One instrument's part in an arrangement.
pub struct Voice {
    pub id: Uuid,
    pub arrangement_id: Uuid,
    pub name: String,
    pub slug: String,
    pub instrument_id: Uuid,
    pub created_at: Time,
    pub updated_at: Time,
    pub deleted_at: Option<Time>,
}

pub struct Instrument {
    pub id: Uuid,
    pub display_name: String,
    pub family: String,
    pub transposition: Option<String>,
}

/// A per-organization label for arrangements.
pub struct Tag {
    pub id: Uuid,
    pub organization_id: Uuid,
    pub name: String,
    pub kind: Option<String>,
    pub created_at: Time,
    pub updated_at: Time,
    pub deleted_at: Option<Time>,
}

/// A concert program or a standing collection.
pub struct Collection {
    pub id: Uuid,
    pub organization_id: Uuid,
    pub name: String,
    pub slug: String,
    pub collection_type: String,
    pub created_at: Time,
    pub updated_at: Time,
    pub deleted_at: Option<Time>,
}

/// A piece in a collection.
pub struct CollectionItem {
    pub id: Uuid,
    pub collection_id: Uuid,
    pub arrangement_id: Uuid,
    pub index: i32,
    pub created_at: Time,
    pub updated_at: Time,
    pub deleted_at: Option<Time>,
}

/// A piece in a collection together with what is shown of its arrangement.
pub struct ItemView {
    pub item: CollectionItem,
    pub arrangement_title: String,
    pub arrangement_slug: String,
    pub arrangement_removed: bool,
}

/// A voice of a piece handed to a player.
pub struct PartAssignment {
    pub id: Uuid,
    pub collection_item_id: Uuid,
    pub voice_id: Uuid,
    pub user_id: Uuid,
    pub notified_at: Option<Time>,
    pub acknowledged_at: Option<Time>,
    pub created_at: Time,
    pub updated_at: Time,
}

/// A voice of a piece with whoever plays it.
pub struct MatrixRow {
    pub voice_id: Uuid,
    pub voice_name: String,
    pub assignment_id: Option<Uuid>,
    pub assignee_username: Option<String>,
    pub assignee_display_name: Option<String>,
    pub notified_at: Option<Time>,
    pub acknowledged_at: Option<Time>,
    pub assignment_updated_at: Option<Time>,
}

/// A stored file: a score where `voice_id` is `None`, else a part.
pub struct File {
    pub id: Uuid,
    pub arrangement_id: Uuid,
    pub voice_id: Option<Uuid>,
    pub name: String,
    pub format: String,
    pub mime_type: String,
    pub derived_from_file_id: Option<Uuid>,
    pub conversion_quality: Option<String>,
    pub created_at: Time,
    pub updated_at: Time,
    pub deleted_at: Option<Time>,
}

} // verus!
