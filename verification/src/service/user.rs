use vstd::prelude::*;

use crate::model::user::{GetUserArgs, GetUserReply};
use crate::repo::table::{row_by_id, UserTable};
use crate::repo::user::{BaseUser, RecordView};
use crate::service::result::{accept, reject, ServiceError, ServiceResult, ServiceValue};

verus! {

/// The status of a fetch for an id that no user has.
pub const NOT_FOUND: u16 = 404;

impl GetUserReply {
    /// Whether this is the profile stored in `row`: its id, email, nickname
    /// and time of creation.
    pub open spec fn shows(&self, row: RecordView) -> bool {
        &&& self.user_id@ == row.id
        &&& self.email@ == row.email
        &&& self.nickname@ == row.nickname
        &&& self.created_at == row.created_at
    }
}

/// The answer to a profile fetch, from what the repository found: the
/// rejection as not found where it found nothing, and else the row's id,
/// email, nickname and time of creation under the plain success status.
pub fn profile_reply(row: Option<BaseUser>) -> (r: ServiceResult<GetUserReply>)
    ensures
        match row {
            None => r matches Err(e) && e.is_rejection(NOT_FOUND, "User not found"@),
            Some(user) => r == Ok::<ServiceValue<GetUserReply>, ServiceError>(
                ServiceValue {
                    code: 200,
                    message: None,
                    data: Some(
                        GetUserReply {
                            user_id: user.f_id,
                            email: user.f_email,
                            nickname: user.f_nickname,
                            created_at: user.f_created_at,
                        },
                    ),
                },
            ),
        },
{
    match row {
        None => Err(reject(NOT_FOUND, "User not found")),
        Some(user) => Ok(
            accept().with_data(
                GetUserReply {
                    user_id: user.f_id,
                    email: user.f_email,
                    nickname: user.f_nickname,
                    created_at: user.f_created_at,
                },
            ),
        ),
    }
}

/// Fetches the profile of the user with the given id from the table `repo`.
/// The table is only read.
pub fn get_user(args: GetUserArgs, repo: &UserTable) -> (r: ServiceResult<GetUserReply>)
    ensures
        match row_by_id(repo@, args.user_id@) {
            None => r matches Err(e) && e.is_rejection(NOT_FOUND, "User not found"@),
            Some(row) => {
                &&& r matches Ok(value)
                &&& value.code == 200
                &&& value.message is None
                &&& value.data matches Some(reply)
                &&& reply.shows(row)
            },
        },
{
    profile_reply(repo.find_profile_by_id(args.user_id.as_str()))
}

} // verus!
