use vstd::prelude::*;

verus! {

/// A user's row without the password hash.
#[derive(Debug)]
pub struct BaseUser {
    pub f_id: String,
    pub f_nickname: String,
    pub f_email: String,
    pub f_created_at: time::OffsetDateTime,
}

/// What a registration writes besides the id.
pub struct NewUser {
    pub f_nickname: String,
    pub f_email: String,
    pub f_password_hash: String,
}

/// The narrow projection of a user's row that password verification needs.
#[derive(Debug)]
pub struct UserSecrets {
    pub f_id: String,
    pub f_password_hash: String,
}

/// A whole user row. It is made by the first successful registration and
/// belongs to the repository alone.
#[derive(Debug)]
pub struct UserRecord {
    pub id: String,
    pub email: String,
    pub nickname: String,
    pub password_hash: String,
    pub created_at: time::OffsetDateTime,
}

/// The mathematical content of a [`UserRecord`].
pub struct RecordView {
    pub id: Seq<char>,
    pub email: Seq<char>,
    pub nickname: Seq<char>,
    pub password_hash: Seq<char>,
    pub created_at: time::OffsetDateTime,
}

impl View for UserRecord {
    type V = RecordView;

    open spec fn view(&self) -> RecordView {
        RecordView {
            id: self.id@,
            email: self.email@,
            nickname: self.nickname@,
            password_hash: self.password_hash@,
            created_at: self.created_at,
        }
    }
}

impl UserSecrets {
    /// Whether these are the credentials of `row`.
    pub open spec fn of(&self, row: RecordView) -> bool {
        self.f_id@ == row.id && self.f_password_hash@ == row.password_hash
    }
}

impl BaseUser {
    /// Whether this is the profile of `row`.
    pub open spec fn of(&self, row: RecordView) -> bool {
        &&& self.f_id@ == row.id
        &&& self.f_email@ == row.email
        &&& self.f_nickname@ == row.nickname
        &&& self.f_created_at == row.created_at
    }
}

} // verus!
