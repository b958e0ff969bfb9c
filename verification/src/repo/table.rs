use vstd::prelude::*;

use crate::repo::user::{BaseUser, NewUser, RecordView, UserRecord, UserSecrets};
use crate::repo::{RepoError, RepoErrorKind};

verus! {

/// Whether `i` is the place of the first row with this email.
pub open spec fn first_with_email(rows: Seq<RecordView>, email: Seq<char>, i: int) -> bool {
    &&& 0 <= i < rows.len()
    &&& rows[i].email == email
    &&& forall|j: int| 0 <= j < i ==> (#[trigger] rows[j]).email != email
}

/// Whether `i` is the place of the first row with this id.
pub open spec fn first_with_id(rows: Seq<RecordView>, id: Seq<char>, i: int) -> bool {
    &&& 0 <= i < rows.len()
    &&& rows[i].id == id
    &&& forall|j: int| 0 <= j < i ==> (#[trigger] rows[j]).id != id
}

/// Whether some row has this email.
pub open spec fn has_email(rows: Seq<RecordView>, email: Seq<char>) -> bool {
    exists|i: int| 0 <= i < rows.len() && (#[trigger] rows[i]).email == email
}

/// Whether some row has this id.
pub open spec fn has_id(rows: Seq<RecordView>, id: Seq<char>) -> bool {
    exists|i: int| 0 <= i < rows.len() && (#[trigger] rows[i]).id == id
}

/// The first row with this email, if there is one.
pub open spec fn row_by_email(rows: Seq<RecordView>, email: Seq<char>) -> Option<RecordView> {
    if has_email(rows, email) {
        Some(rows[choose|i: int| first_with_email(rows, email, i)])
    } else {
        None
    }
}

/// The first row with this id, if there is one.
pub open spec fn row_by_id(rows: Seq<RecordView>, id: Seq<char>) -> Option<RecordView> {
    if has_id(rows, id) {
        Some(rows[choose|i: int| first_with_id(rows, id, i)])
    } else {
        None
    }
}

/// The uniqueness constraints: no two rows share an email, no two an id.
pub open spec fn distinct(rows: Seq<RecordView>) -> bool {
    forall|i: int, j: int|
        0 <= i < j < rows.len() ==> (#[trigger] rows[i]).email != (#[trigger] rows[j]).email
            && rows[i].id != rows[j].id
}

/// Whether `row` cannot join `rows` without breaking a uniqueness constraint.
pub open spec fn conflicts(rows: Seq<RecordView>, row: RecordView) -> bool {
    has_email(rows, row.email) || has_id(rows, row.id)
}

/// Whether some row of `staged` conflicts with `rows`.
pub open spec fn any_conflict(rows: Seq<RecordView>, staged: Seq<RecordView>) -> bool {
    exists|k: int| 0 <= k < staged.len() && conflicts(rows, #[trigger] staged[k])
}

/// How many rows have this email.
pub open spec fn count_email(rows: Seq<RecordView>, email: Seq<char>) -> nat
    decreases rows.len(),
{
    if rows.len() == 0 {
        0
    } else {
        count_email(rows.drop_last(), email) + if rows.last().email == email {
            1nat
        } else {
            0nat
        }
    }
}

/// The views of the rows of a vector.
pub open spec fn views(rows: Seq<UserRecord>) -> Seq<RecordView> {
    rows.map_values(|r: UserRecord| r@)
}

/// The user table held in memory: the committed rows, in the order in which
/// they were committed, under the uniqueness constraints on email and id.
pub struct UserTable {
    rows: Vec<UserRecord>,
}

/// The rows that one transaction has inserted and not yet committed. Dropping
/// it without a commit is the rollback.
pub struct UserTransaction {
    staged: Vec<UserRecord>,
}

impl View for UserTable {
    type V = Seq<RecordView>;

    closed spec fn view(&self) -> Seq<RecordView> {
        views(self.rows@)
    }
}

impl View for UserTransaction {
    type V = Seq<RecordView>;

    closed spec fn view(&self) -> Seq<RecordView> {
        views(self.staged@)
    }
}

/// The place of the first of `rows` with this email, as an index below `rows.len()`,
/// or `rows.len()` if there is none.
fn position_of_email(rows: &Vec<UserRecord>, email: &String) -> (at: usize)
    ensures
        at <= rows.len(),
        at < rows.len() ==> first_with_email(views(rows@), email@, at as int),
        at == rows.len() ==> !has_email(views(rows@), email@),
{
    let mut i: usize = 0;
    while i < rows.len()
        invariant
            i <= rows.len(),
            forall|j: int| 0 <= j < i ==> (#[trigger] views(rows@)[j]).email != email@,
        decreases rows.len() - i,
    {
        if rows[i].email == *email {
            return i;
        }
        i += 1;
    }
    i
}

/// The place of the first of `rows` with this id, or `rows.len()` if there is none.
fn position_of_id(rows: &Vec<UserRecord>, id: &String) -> (at: usize)
    ensures
        at <= rows.len(),
        at < rows.len() ==> first_with_id(views(rows@), id@, at as int),
        at == rows.len() ==> !has_id(views(rows@), id@),
{
    let mut i: usize = 0;
    while i < rows.len()
        invariant
            i <= rows.len(),
            forall|j: int| 0 <= j < i ==> (#[trigger] views(rows@)[j]).id != id@,
        decreases rows.len() - i,
    {
        if rows[i].id == *id {
            return i;
        }
        i += 1;
    }
    i
}

/// The first place with a given email is the only such place.
pub proof fn lemma_first_with_email_unique(rows: Seq<RecordView>, email: Seq<char>, i: int, k: int)
    requires
        first_with_email(rows, email, i),
        first_with_email(rows, email, k),
    ensures
        i == k,
{
}

/// A place in the first of two sequences is the same place in both laid end to end.
pub proof fn lemma_first_in_front(front: Seq<RecordView>, back: Seq<RecordView>, email: Seq<char>, i: int)
    requires
        first_with_email(front, email, i),
    ensures
        first_with_email(front + back, email, i),
        row_by_email(front + back, email) == Some(front[i]),
{
    let all = front + back;
    let k = choose|k: int| first_with_email(all, email, k);
    lemma_first_with_email_unique(all, email, i, k);
}

/// Where the first sequence has no row with the email, the first such row of
/// both laid end to end is the first such row of the second.
pub proof fn lemma_first_in_back(front: Seq<RecordView>, back: Seq<RecordView>, email: Seq<char>)
    requires
        !has_email(front, email),
    ensures
        row_by_email(front + back, email) == row_by_email(back, email),
{
    let all = front + back;
    if has_email(back, email) {
        let i = choose|i: int| first_with_email(back, email, i);
        lemma_first_exists(back, email);
        let k = choose|k: int| first_with_email(all, email, k);
        lemma_first_with_email_unique(all, email, front.len() + i, k);
    }
}

/// Among the rows with a given email there is a first.
pub proof fn lemma_first_exists(rows: Seq<RecordView>, email: Seq<char>)
    requires
        has_email(rows, email),
    ensures
        exists|i: int| first_with_email(rows, email, i),
        first_with_email(rows, email, choose|i: int| first_with_email(rows, email, i)),
{
    let w = choose|i: int| 0 <= i < rows.len() && (#[trigger] rows[i]).email == email;
    lemma_first_below(rows, email, w);
}

/// Induction behind [`lemma_first_exists`]: a row with the email at `w` gives a first one at or below `w`.
proof fn lemma_first_below(rows: Seq<RecordView>, email: Seq<char>, w: int)
    requires
        0 <= w < rows.len(),
        rows[w].email == email,
    ensures
        exists|i: int| first_with_email(rows, email, i),
    decreases w,
{
    if exists|j: int| 0 <= j < w && (#[trigger] rows[j]).email == email {
        let j = choose|j: int| 0 <= j < w && (#[trigger] rows[j]).email == email;
        lemma_first_below(rows, email, j);
    } else {
        assert(first_with_email(rows, email, w));
    }
}

/// The row at the first place with an email is the row that a lookup by that email finds.
pub proof fn lemma_row_at_first_email(rows: Seq<RecordView>, email: Seq<char>, i: int)
    requires
        first_with_email(rows, email, i),
    ensures
        row_by_email(rows, email) == Some(rows[i]),
{
    lemma_first_with_email_unique(rows, email, i, choose|k: int| first_with_email(rows, email, k));
}

/// A row conflicts with two sequences laid end to end exactly if it conflicts with one of them.
pub proof fn lemma_conflicts_concat(front: Seq<RecordView>, back: Seq<RecordView>, row: RecordView)
    ensures
        conflicts(front + back, row) <==> conflicts(front, row) || conflicts(back, row),
{
    let all = front + back;
    if has_email(front, row.email) {
        let j = choose|j: int| 0 <= j < front.len() && (#[trigger] front[j]).email == row.email;
        assert(all[j].email == row.email);
    }
    if has_id(front, row.id) {
        let j = choose|j: int| 0 <= j < front.len() && (#[trigger] front[j]).id == row.id;
        assert(all[j].id == row.id);
    }
    if has_email(back, row.email) {
        let j = choose|j: int| 0 <= j < back.len() && (#[trigger] back[j]).email == row.email;
        assert(all[front.len() + j].email == row.email);
    }
    if has_id(back, row.id) {
        let j = choose|j: int| 0 <= j < back.len() && (#[trigger] back[j]).id == row.id;
        assert(all[front.len() + j].id == row.id);
    }
}

/// No row has an email exactly if the email is counted zero times.
pub proof fn lemma_count_email_zero(rows: Seq<RecordView>, email: Seq<char>)
    ensures
        count_email(rows, email) == 0 <==> !has_email(rows, email),
    decreases rows.len(),
{
    if rows.len() > 0 {
        let front = rows.drop_last();
        lemma_count_email_zero(front, email);
        if has_email(rows, email) && rows.last().email != email {
            let i = choose|i: int| 0 <= i < rows.len() && (#[trigger] rows[i]).email == email;
            assert(front[i].email == email);
        }
    }
}

/// Under the uniqueness constraints every email is counted once at most.
pub proof fn lemma_count_email_distinct(rows: Seq<RecordView>, email: Seq<char>)
    requires
        distinct(rows),
    ensures
        count_email(rows, email) == (if has_email(rows, email) {
            1nat
        } else {
            0nat
        }),
    decreases rows.len(),
{
    lemma_count_email_zero(rows, email);
    if rows.len() > 0 {
        let front = rows.drop_last();
        lemma_count_email_distinct(front, email);
    }
}

/// One row for one email, whatever the order in which two registrations for
/// the same unseen email reach the table.
///
/// Both may look the email up and find nothing, and both may stage their row.
/// The commit of the first puts its row into the table. From then on the
/// other is refused with a constraint violation, at its insert or at its
/// commit, and the table stays as the first left it; a lookup then finds the
/// first one's row. The table is under the uniqueness constraints and holds
/// the email exactly once, and every row that it held before is still there.
pub proof fn law_one_row_per_email(rows: Seq<RecordView>, first: RecordView, second: RecordView)
    requires
        distinct(rows),
        !conflicts(rows, first),
        second.email == first.email,
    ensures
        row_by_email(rows, first.email) is None,
        inserted(rows, Seq::<RecordView>::empty(), first) == Ok::<Seq<RecordView>, RepoErrorKind>(
            seq![first],
        ),
        committed(rows, seq![first]) == Ok::<Seq<RecordView>, RepoErrorKind>(rows.push(first)),
        inserted(rows.push(first), Seq::<RecordView>::empty(), second) == Err::<
            Seq<RecordView>,
            RepoErrorKind,
        >(RepoErrorKind::ConstraintViolation),
        committed(rows.push(first), seq![second]) == Err::<Seq<RecordView>, RepoErrorKind>(
            RepoErrorKind::ConstraintViolation,
        ),
        row_by_email(rows.push(first), second.email) == Some(first),
        distinct(rows.push(first)),
        count_email(rows.push(first), first.email) == 1,
        rows.push(first).subrange(0, rows.len() as int) == rows,
{
    let after = rows.push(first);
    assert(after[rows.len() as int].email == second.email);
    assert(conflicts(after, seq![second][0]));
    lemma_row_at_first_email(after, first.email, rows.len() as int);
    lemma_count_email_distinct(after, first.email);
}

/// The row that an insert of these values writes.
pub open spec fn record_of(user_id: Seq<char>, user: NewUser, created_at: time::OffsetDateTime) -> RecordView {
    RecordView {
        id: user_id,
        email: user.f_email@,
        nickname: user.f_nickname@,
        password_hash: user.f_password_hash@,
        created_at,
    }
}

/// What a transaction holds after an insert of `row`, on the committed rows
/// `rows` and with `staged` inserted before: the row is refused where its
/// email or its id is taken, and staged behind the others where neither is.
pub open spec fn inserted(rows: Seq<RecordView>, staged: Seq<RecordView>, row: RecordView) -> Result<
    Seq<RecordView>,
    RepoErrorKind,
> {
    if conflicts(rows + staged, row) {
        Err(RepoErrorKind::ConstraintViolation)
    } else {
        Ok(staged.push(row))
    }
}

/// What the table holds after a commit of `staged` on the committed rows
/// `rows`: all of the staged rows behind the others, or, where one of them
/// meets a row committed meanwhile, none.
pub open spec fn committed(rows: Seq<RecordView>, staged: Seq<RecordView>) -> Result<
    Seq<RecordView>,
    RepoErrorKind,
> {
    if any_conflict(rows, staged) {
        Err(RepoErrorKind::ConstraintViolation)
    } else {
        Ok(rows + staged)
    }
}

/// Whether `row` conflicts with `rows`.
fn is_taken(rows: &Vec<UserRecord>, row: &UserRecord) -> (taken: bool)
    ensures
        taken == conflicts(views(rows@), row@),
{
    position_of_email(rows, &row.email) < rows.len() || position_of_id(rows, &row.id) < rows.len()
}

impl UserTable {
    #[verifier::type_invariant]
    closed spec fn constrained(&self) -> bool {
        distinct(views(self.rows@))
    }

    /// The empty table.
    pub fn new() -> (table: Self)
        ensures
            table@ == Seq::<RecordView>::empty(),
    {
        UserTable { rows: Vec::new() }
    }

    /// The number of committed rows.
    pub fn len(&self) -> (n: usize)
        ensures
            n == self@.len(),
            distinct(self@),
    {
        proof {
            use_type_invariant(self);
        }
        self.rows.len()
    }

    /// Opens a transaction: nothing is staged yet.
    pub fn begin(&self) -> (tx: UserTransaction)
        ensures
            tx@ == Seq::<RecordView>::empty(),
    {
        UserTransaction { staged: Vec::new() }
    }

    /// The credentials of the user with this email, as the transaction sees
    /// them: among the committed rows first, then among those it has staged.
    pub fn find_credentials_by_email(&self, tx: &UserTransaction, email: &str) -> (found: Option<
        UserSecrets,
    >)
        ensures
            match row_by_email(self@ + tx@, email@) {
                Some(row) => found matches Some(secrets) && secrets.of(row),
                None => found is None,
            },
    {
        let wanted = email.to_owned();
        let at = position_of_email(&self.rows, &wanted);
        if at < self.rows.len() {
            proof {
                lemma_first_in_front(self@, tx@, email@, at as int);
            }
            let row = &self.rows[at];
            Some(UserSecrets { f_id: row.id.clone(), f_password_hash: row.password_hash.clone() })
        } else {
            let at = position_of_email(&tx.staged, &wanted);
            proof {
                lemma_first_in_back(self@, tx@, email@);
            }
            if at < tx.staged.len() {
                let row = &tx.staged[at];
                Some(UserSecrets { f_id: row.id.clone(), f_password_hash: row.password_hash.clone() })
            } else {
                None
            }
        }
    }

    /// The profile of the user with this id, among the committed rows.
    pub fn find_profile_by_id(&self, id: &str) -> (found: Option<BaseUser>)
        ensures
            match row_by_id(self@, id@) {
                Some(row) => found matches Some(user) && user.of(row),
                None => found is None,
            },
    {
        let wanted = id.to_owned();
        let at = position_of_id(&self.rows, &wanted);
        if at < self.rows.len() {
            let row = &self.rows[at];
            Some(
                BaseUser {
                    f_id: row.id.clone(),
                    f_nickname: row.nickname.clone(),
                    f_email: row.email.clone(),
                    f_created_at: row.created_at,
                },
            )
        } else {
            None
        }
    }

    /// Stages a new user's row in the transaction. The row is refused with a
    /// constraint violation where its email or its id is already taken, by a
    /// committed row or by one staged before.
    pub fn insert_user(
        &self,
        tx: &mut UserTransaction,
        user_id: String,
        user: NewUser,
        created_at: time::OffsetDateTime,
    ) -> (r: Result<(), RepoError>)
        ensures
            match inserted(self@, old(tx)@, record_of(user_id@, user, created_at)) {
                Ok(staged) => r is Ok && final(tx)@ == staged,
                Err(kind) => r matches Err(e) && e.kind == kind && final(tx)@ == old(tx)@,
            },
    {
        let record = UserRecord {
            id: user_id,
            email: user.f_email,
            nickname: user.f_nickname,
            password_hash: user.f_password_hash,
            created_at,
        };
        proof {
            use_type_invariant(&*tx);
            lemma_conflicts_concat(self@, tx@, record@);
        }
        if is_taken(&self.rows, &record) || is_taken(&tx.staged, &record) {
            return Err(
                RepoError {
                    kind: RepoErrorKind::ConstraintViolation,
                    detail: "a row with this email or id exists".to_owned(),
                },
            );
        }
        let mut taken = UserTransaction { staged: Vec::new() };
        std::mem::swap(tx, &mut taken);
        let UserTransaction { mut staged } = taken;
        proof {
            assert(views(staged@.push(record)) =~= views(staged@).push(record@));
        }
        staged.push(record);
        *tx = UserTransaction { staged };
        Ok(())
    }

    /// Commits the transaction: its rows join the table, all or none. None
    /// does where one of them meets a row that was committed meanwhile; the
    /// commit then fails with a constraint violation and the table is as before.
    pub fn commit(&mut self, tx: UserTransaction) -> (r: Result<(), RepoError>)
        ensures
            match committed(old(self)@, tx@) {
                Ok(rows) => r is Ok && final(self)@ == rows,
                Err(kind) => r matches Err(e) && e.kind == kind && final(self)@ == old(self)@,
            },
            distinct(final(self)@),
    {
        proof {
            use_type_invariant(&*self);
            use_type_invariant(&tx);
        }
        let mut k: usize = 0;
        while k < tx.staged.len()
            invariant
                k <= tx.staged.len(),
                distinct(views(self.rows@)),
                distinct(views(tx.staged@)),
                forall|j: int| 0 <= j < k ==> !conflicts(views(self.rows@), #[trigger] views(tx.staged@)[j]),
            decreases tx.staged.len() - k,
        {
            if is_taken(&self.rows, &tx.staged[k]) {
                assert(conflicts(self@, tx@[k as int]));
                return Err(
                    RepoError {
                        kind: RepoErrorKind::ConstraintViolation,
                        detail: "a row with this email or id was committed meanwhile".to_owned(),
                    },
                );
            }
            k += 1;
        }
        let UserTransaction { mut staged } = tx;
        let mut taken = UserTable { rows: Vec::new() };
        std::mem::swap(self, &mut taken);
        let UserTable { mut rows } = taken;
        proof {
            assert(views(rows@ + staged@) =~= views(rows@) + views(staged@));
        }
        rows.append(&mut staged);
        *self = UserTable { rows };
        Ok(())
    }
}

impl UserTransaction {
    #[verifier::type_invariant]
    closed spec fn constrained(&self) -> bool {
        distinct(views(self.staged@))
    }

    /// The number of staged rows.
    pub fn len(&self) -> (n: usize)
        ensures
            n == self@.len(),
            distinct(self@),
    {
        proof {
            use_type_invariant(self);
        }
        self.staged.len()
    }
}

} // verus!
