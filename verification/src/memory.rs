//! A credential store and a todo store that keep their records in memory.
//! Email addresses and identifiers are unique, and every request for a todo
//! item is confined to the owner it names.

use vstd::prelude::*;
use crate::error::ErrorView;
use crate::ident::Id;
use crate::models::Timestamp;
use crate::routes::delete_reply;
use crate::routes::register_reply;
use crate::routes::update_reply;
use crate::store::StoreCommand;
use crate::store::StoreFailure;
use crate::store::TodoRow;
use crate::store::UserRow;

verus! {

/// A user as the store keeps it.
#[derive(Clone, Debug, PartialEq, Eq)]
pub struct UserRecord {
    pub id: Id,
    pub email: String,
    pub password_hash: String,
}

/// A todo item as the store keeps it.
#[derive(Clone, Debug, PartialEq, Eq)]
pub struct TodoRecord {
    pub id: Id,
    pub owner: Id,
    pub title: String,
    pub completed: bool,
    pub created_at: Timestamp,
}

/// The records of a store, as contracts see them.
pub struct StoreView {
    pub users: Seq<UserRecord>,
    pub todos: Seq<TodoRecord>,
}

/// The two stores.
pub struct MemoryStore {
    users: Vec<UserRecord>,
    todos: Vec<TodoRecord>,
}

/// Whether some user has the address `email`.
pub open spec fn email_taken(users: Seq<UserRecord>, email: Seq<char>) -> bool {
    exists|i: int| 0 <= i < users.len() && (#[trigger] users[i]).email@ == email
}

/// Whether some user has the identifier `id`.
pub open spec fn user_id_taken(users: Seq<UserRecord>, id: Id) -> bool {
    exists|i: int| 0 <= i < users.len() && (#[trigger] users[i]).id == id
}

/// Whether some todo item has the identifier `id`.
pub open spec fn todo_id_taken(todos: Seq<TodoRecord>, id: Id) -> bool {
    exists|i: int| 0 <= i < todos.len() && (#[trigger] todos[i]).id == id
}

/// Whether the item at `i` is the item `id` of the user `owner`.
pub open spec fn is_todo_at(todos: Seq<TodoRecord>, id: Id, owner: Id, i: int) -> bool {
    0 <= i < todos.len() && todos[i].id == id && todos[i].owner == owner
}

/// Whether the user `owner` has the item `id`.
pub open spec fn has_todo(todos: Seq<TodoRecord>, id: Id, owner: Id) -> bool {
    exists|i: int| #[trigger] is_todo_at(todos, id, owner, i)
}

/// Whether the store refuses `user` because its address or its identifier is
/// there already.
pub open spec fn user_conflicts(users: Seq<UserRecord>, user: UserRecord) -> bool {
    email_taken(users, user.email@) || user_id_taken(users, user.id)
}

/// The users after the store was asked to insert `user`.
pub open spec fn users_after_insert(users: Seq<UserRecord>, user: UserRecord) -> Seq<UserRecord> {
    if user_conflicts(users, user) {
        users
    } else {
        users.push(user)
    }
}

/// The todo items after the store was asked to insert `todo`.
pub open spec fn todos_after_insert(todos: Seq<TodoRecord>, todo: TodoRecord) -> Seq<TodoRecord> {
    if todo_id_taken(todos, todo.id) {
        todos
    } else {
        todos.push(todo)
    }
}

/// Number of users with the address `email`.
pub open spec fn count_email(users: Seq<UserRecord>, email: Seq<char>) -> nat
    decreases users.len(),
{
    if users.len() == 0 {
        0
    } else {
        count_email(users.drop_last(), email) + if users.last().email@ == email {
            1nat
        } else {
            0nat
        }
    }
}

/// The items of the user `owner`, in the order in which they were inserted.
pub open spec fn owned_by(todos: Seq<TodoRecord>, owner: Id) -> Seq<TodoRecord>
    decreases todos.len(),
{
    if todos.len() == 0 {
        Seq::empty()
    } else if todos.last().owner == owner {
        owned_by(todos.drop_last(), owner).push(todos.last())
    } else {
        owned_by(todos.drop_last(), owner)
    }
}

/// `todo` with a new title and a new state.
pub open spec fn changed(todo: TodoRecord, title: String, completed: bool) -> TodoRecord {
    TodoRecord { id: todo.id, owner: todo.owner, title, completed, created_at: todo.created_at }
}

/// Whether `row` hands out `user`, every column read.
pub open spec fn is_row_of_user(row: UserRow, user: UserRecord) -> bool {
    row.id == Some(user.id) && row.password_hash.deep_view() == Some(user.password_hash@)
}

/// Whether `row` hands out `todo`, every column read.
pub open spec fn is_row_of_todo(row: TodoRow, todo: TodoRecord) -> bool {
    &&& row.id == Some(todo.id)
    &&& row.title.deep_view() == Some(todo.title@)
    &&& row.completed == Some(todo.completed)
    &&& row.created_at == Some(todo.created_at)
}

/// What a store answers to a request.
#[derive(Debug, PartialEq, Eq)]
pub enum StoreAnswer {
    /// The answer to an insertion.
    Inserted(Result<(), StoreFailure>),
    /// The answer to a lookup of a user.
    User(Option<UserRow>),
    /// The answer to a listing.
    Todos(Vec<TodoRow>),
    /// The answer to an update.
    Todo(Option<TodoRow>),
    /// The answer to a removal: the number of items deleted.
    Deleted(u64),
}

/// Whether a store that held `before` and was asked to insert `user` holds
/// `after` and answers `r`.
pub open spec fn user_inserted(
    before: StoreView,
    after: StoreView,
    user: UserRecord,
    r: Result<(), StoreFailure>,
) -> bool {
    &&& after.todos == before.todos
    &&& after.users == users_after_insert(before.users, user)
    &&& match r {
        Ok(()) => !user_conflicts(before.users, user),
        Err(failure) => failure.is_unique_violation_spec() && user_conflicts(before.users, user),
    }
}

/// Whether `r` is what a store that holds `store` answers when asked for the
/// user with the address `email`.
pub open spec fn user_found(store: StoreView, email: Seq<char>, r: Option<UserRow>) -> bool {
    match r {
        Some(row) => exists|i: int|
            0 <= i < store.users.len() && (#[trigger] store.users[i]).email@ == email
                && is_row_of_user(row, store.users[i]),
        None => !email_taken(store.users, email),
    }
}

/// Whether a store that held `before` and was asked to insert `todo` holds
/// `after` and answers `r`.
pub open spec fn todo_inserted(
    before: StoreView,
    after: StoreView,
    todo: TodoRecord,
    r: Result<(), StoreFailure>,
) -> bool {
    &&& after.users == before.users
    &&& after.todos == todos_after_insert(before.todos, todo)
    &&& match r {
        Ok(()) => !todo_id_taken(before.todos, todo.id),
        Err(failure) => failure.is_unique_violation_spec() && todo_id_taken(before.todos, todo.id),
    }
}

/// Whether `rows` are what a store that holds `store` answers when asked for
/// the items of the user `owner`.
pub open spec fn todos_listed(store: StoreView, owner: Id, rows: Seq<TodoRow>) -> bool {
    &&& rows.len() == owned_by(store.todos, owner).len()
    &&& forall|k: int|
        0 <= k < rows.len() ==> is_row_of_todo(#[trigger] rows[k], owned_by(store.todos, owner)[k])
}

/// Whether a store that held `before` and was asked to give the item `id` of
/// the user `owner` a new title and state holds `after` and answers `r`.
pub open spec fn todo_updated(
    before: StoreView,
    after: StoreView,
    id: Id,
    owner: Id,
    title: String,
    completed: bool,
    r: Option<TodoRow>,
) -> bool {
    &&& after.users == before.users
    &&& match r {
        Some(row) => exists|i: int|
            {
                &&& #[trigger] is_todo_at(before.todos, id, owner, i)
                &&& after.todos == before.todos.update(
                    i,
                    changed(before.todos[i], title, completed),
                )
                &&& is_row_of_todo(row, after.todos[i])
            },
        None => !has_todo(before.todos, id, owner) && after.todos == before.todos,
    }
}

/// Whether a store that held `before` and was asked to delete the item `id`
/// of the user `owner` holds `after` and tells that it deleted `deleted`
/// items.
pub open spec fn todo_deleted(
    before: StoreView,
    after: StoreView,
    id: Id,
    owner: Id,
    deleted: u64,
) -> bool {
    &&& after.users == before.users
    &&& !has_todo(after.todos, id, owner)
    &&& if has_todo(before.todos, id, owner) {
        deleted == 1 && exists|i: int|
            #[trigger] is_todo_at(before.todos, id, owner, i) && after.todos
                == before.todos.remove(i)
    } else {
        deleted == 0 && after.todos == before.todos
    }
}

/// Whether a store that held `before` and was given `command` holds `after`
/// and answers `answer`. An item inserted gets the time `created_at`.
pub open spec fn is_answer(
    before: StoreView,
    after: StoreView,
    command: StoreCommand,
    created_at: Timestamp,
    answer: StoreAnswer,
) -> bool {
    match command {
        StoreCommand::InsertUser { id, email, password_hash } => {
            answer matches StoreAnswer::Inserted(r) && user_inserted(
                before,
                after,
                UserRecord { id, email, password_hash },
                r,
            )
        },
        StoreCommand::FindUserByEmail { email } => {
            after == before && (answer matches StoreAnswer::User(r) && user_found(
                before,
                email@,
                r,
            ))
        },
        StoreCommand::InsertTodo { id, owner, title } => {
            answer matches StoreAnswer::Inserted(r) && todo_inserted(
                before,
                after,
                TodoRecord { id, owner, title, completed: false, created_at },
                r,
            )
        },
        StoreCommand::ListTodos { owner } => {
            after == before && (answer matches StoreAnswer::Todos(rows) && todos_listed(
                before,
                owner,
                rows@,
            ))
        },
        StoreCommand::UpdateTodo { id, owner, title, completed } => {
            answer matches StoreAnswer::Todo(r) && todo_updated(
                before,
                after,
                id,
                owner,
                title,
                completed,
                r,
            )
        },
        StoreCommand::DeleteTodo { id, owner } => {
            answer matches StoreAnswer::Deleted(deleted) && todo_deleted(
                before,
                after,
                id,
                owner,
                deleted,
            )
        },
    }
}

/// Whether no two users share an address.
pub open spec fn distinct_emails(users: Seq<UserRecord>) -> bool {
    forall|i: int, j: int|
        0 <= i < j < users.len() ==> (#[trigger] users[i]).email@ != (#[trigger] users[j]).email@
}

/// Whether no two users share an identifier.
pub open spec fn distinct_user_ids(users: Seq<UserRecord>) -> bool {
    forall|i: int, j: int|
        0 <= i < j < users.len() ==> (#[trigger] users[i]).id != (#[trigger] users[j]).id
}

/// Whether no two todo items share an identifier.
pub open spec fn distinct_todo_ids(todos: Seq<TodoRecord>) -> bool {
    forall|i: int, j: int|
        0 <= i < j < todos.len() ==> (#[trigger] todos[i]).id != (#[trigger] todos[j]).id
}

impl StoreView {
    /// No two users share an address or an identifier, and no two todo items
    /// share an identifier.
    pub open spec fn wf(self) -> bool {
        &&& distinct_emails(self.users)
        &&& distinct_user_ids(self.users)
        &&& distinct_todo_ids(self.todos)
    }
}

impl View for MemoryStore {
    type V = StoreView;

    closed spec fn view(&self) -> StoreView {
        StoreView { users: self.users@, todos: self.todos@ }
    }
}

/// The store's failure for a value that must be unique and is there already.
fn unique_violation() -> (failure: StoreFailure)
    ensures
        failure.is_unique_violation_spec(),
{
    StoreFailure { code: Some("23505".to_owned()) }
}

/// Hands out a todo item with every column read.
fn row_of_todo(todo: &TodoRecord) -> (row: TodoRow)
    ensures
        is_row_of_todo(row, *todo),
{
    TodoRow {
        id: Some(todo.id),
        title: Some(todo.title.clone()),
        completed: Some(todo.completed),
        created_at: Some(todo.created_at),
    }
}

/// Users stay without duplicates when a user is appended whose address and
/// identifier none of them has.
proof fn lemma_users_distinct_after_push(users: Seq<UserRecord>, user: UserRecord)
    requires
        distinct_emails(users),
        distinct_user_ids(users),
        !user_conflicts(users, user),
    ensures
        distinct_emails(users.push(user)),
        distinct_user_ids(users.push(user)),
{
    let after = users.push(user);
    assert forall|a: int, b: int| 0 <= a < b < after.len() implies (#[trigger] after[a]).email@ != (
    #[trigger] after[b]).email@ && after[a].id != after[b].id by {
        assert(after[a] == users[a]);
        if b < users.len() {
            assert(after[b] == users[b]);
        }
    }
}

/// Todo items stay without duplicates when an item is appended whose
/// identifier none of them has.
proof fn lemma_todos_distinct_after_push(todos: Seq<TodoRecord>, todo: TodoRecord)
    requires
        distinct_todo_ids(todos),
        !todo_id_taken(todos, todo.id),
    ensures
        distinct_todo_ids(todos.push(todo)),
{
    let after = todos.push(todo);
    assert forall|a: int, b: int| 0 <= a < b < after.len() implies (#[trigger] after[a]).id != (
    #[trigger] after[b]).id by {
        assert(after[a] == todos[a]);
        if b < todos.len() {
            assert(after[b] == todos[b]);
        }
    }
}

/// Todo items stay without duplicates when one of them changes and keeps
/// its identifier.
proof fn lemma_todos_distinct_after_update(todos: Seq<TodoRecord>, i: int, todo: TodoRecord)
    requires
        distinct_todo_ids(todos),
        0 <= i < todos.len(),
        todo.id == todos[i].id,
    ensures
        distinct_todo_ids(todos.update(i, todo)),
{
    let after = todos.update(i, todo);
    assert forall|a: int, b: int| 0 <= a < b < after.len() implies (#[trigger] after[a]).id != (
    #[trigger] after[b]).id by {
        assert(after[a].id == todos[a].id && after[b].id == todos[b].id);
    }
}

/// Todo items stay without duplicates when one of them is removed, and the
/// identifier of the one removed is free again.
proof fn lemma_todos_distinct_after_remove(todos: Seq<TodoRecord>, i: int)
    requires
        distinct_todo_ids(todos),
        0 <= i < todos.len(),
    ensures
        distinct_todo_ids(todos.remove(i)),
        !todo_id_taken(todos.remove(i), todos[i].id),
{
    let after = todos.remove(i);
    assert forall|a: int, b: int| 0 <= a < b < after.len() implies (#[trigger] after[a]).id != (
    #[trigger] after[b]).id by {
        let x = if a < i { a } else { a + 1 };
        let y = if b < i { b } else { b + 1 };
        assert(after[a] == todos[x] && after[b] == todos[y]);
    }
    assert forall|a: int| 0 <= a < after.len() implies (#[trigger] after[a]).id != todos[i].id by {
        let x = if a < i { a } else { a + 1 };
        assert(after[a] == todos[x]);
        if x < i {
            assert(todos[x].id != todos[i].id);
        } else {
            assert(todos[i].id != todos[x].id);
        }
    }
}

/// The address `email` occurs once among users of whom no two share an
/// address and one has it.
pub proof fn lemma_count_email_unique(users: Seq<UserRecord>, email: Seq<char>)
    requires
        distinct_emails(users),
    ensures
        count_email(users, email) == if email_taken(users, email) {
            1nat
        } else {
            0nat
        },
    decreases users.len(),
{
    if users.len() > 0 {
        let rest = users.drop_last();
        let last = users.len() - 1;
        assert(distinct_emails(rest)) by {
            assert forall|i: int, j: int| 0 <= i < j < rest.len() implies (#[trigger] rest[i]).email@
                != (#[trigger] rest[j]).email@ by {
                assert(rest[i] == users[i] && rest[j] == users[j]);
            }
        }
        lemma_count_email_unique(rest, email);
        if email_taken(rest, email) {
            let i = choose|i: int| 0 <= i < rest.len() && (#[trigger] rest[i]).email@ == email;
            assert(users[i] == rest[i]);
            assert(users[i].email@ != users[last].email@);
        } else if users[last].email@ != email {
            if email_taken(users, email) {
                let i = choose|i: int|
                    0 <= i < users.len() && (#[trigger] users[i]).email@ == email;
                assert(rest[i] == users[i]);
            }
        }
    }
}

/// Registering one address twice: whatever the store held before, it
/// refuses the second insertion, the reply to that is a bad request and no
/// failure of the server, and one user has the address afterwards. The first
/// identifier is taken to be fresh.
pub proof fn lemma_second_registration_is_refused(
    before: StoreView,
    between: StoreView,
    after: StoreView,
    first: UserRecord,
    second: UserRecord,
    first_answer: Result<(), StoreFailure>,
    second_answer: Result<(), StoreFailure>,
)
    requires
        before.wf(),
        first.email@ == second.email@,
        !user_id_taken(before.users, first.id),
        user_inserted(before, between, first, first_answer),
        user_inserted(between, after, second, second_answer),
    ensures
        second_answer is Err,
        register_reply(second_answer) == Err::<Seq<char>, ErrorView>(
            ErrorView::BadRequest("User exists"@),
        ),
        after == between,
        count_email(after.users, first.email@) == 1,
{
    if !email_taken(before.users, first.email@) {
        lemma_users_distinct_after_push(before.users, first);
        assert(between.users[before.users.len() as int].email@ == first.email@);
    } else {
        let i = choose|i: int|
            0 <= i < before.users.len() && (#[trigger] before.users[i]).email@ == first.email@;
        assert(between.users[i].email@ == second.email@);
    }
    lemma_count_email_unique(between.users, first.email@);
}

/// A todo item that one user created is not there for another user:
/// whatever the store held before, it changes and deletes nothing when the
/// other asks, and the replies to that are that the item was not found.
pub proof fn lemma_foreign_todo_is_not_found(
    before: StoreView,
    between: StoreView,
    after: StoreView,
    todo: TodoRecord,
    created: Result<(), StoreFailure>,
    other: Id,
    title: String,
    completed: bool,
    updated: Option<TodoRow>,
    deleted: u64,
)
    requires
        before.wf(),
        other != todo.owner,
        created is Ok,
        todo_inserted(before, between, todo, created),
        todo_updated(between, after, todo.id, other, title, completed, updated)
            || todo_deleted(between, after, todo.id, other, deleted),
    ensures
        after == between,
        has_todo(after.todos, todo.id, todo.owner),
        todo_updated(between, after, todo.id, other, title, completed, updated) ==> update_reply(
            Ok(updated),
        ) == Err::<crate::models::TodoView, ErrorView>(ErrorView::NotFound("Todo not found"@)),
        todo_deleted(between, after, todo.id, other, deleted) ==> delete_reply(Ok(deleted)) == Err::<
            Seq<char>,
            ErrorView,
        >(ErrorView::NotFound("Todo not found"@)),
{
    assert(is_todo_at(between.todos, todo.id, todo.owner, before.todos.len() as int));
    assert forall|i: int| !#[trigger] is_todo_at(between.todos, todo.id, other, i) by {
        if 0 <= i < before.todos.len() {
            assert(between.todos[i] == before.todos[i]);
        }
    }
}

impl MemoryStore {
    /// A store without records.
    pub fn new() -> (store: MemoryStore)
        ensures
            store@.wf(),
            store@.users.len() == 0,
            store@.todos.len() == 0,
    {
        MemoryStore { users: Vec::new(), todos: Vec::new() }
    }

    /// Number of users.
    pub fn user_count(&self) -> (n: usize)
        ensures
            n == self@.users.len(),
    {
        self.users.len()
    }

    /// Number of todo items, whoever owns them.
    pub fn todo_count(&self) -> (n: usize)
        ensures
            n == self@.todos.len(),
    {
        self.todos.len()
    }

    /// Inserts a user, unless the address or the identifier is there already.
    pub fn insert_user(&mut self, id: Id, email: String, password_hash: String) -> (r: Result<
        (),
        StoreFailure,
    >)
        requires
            old(self)@.wf(),
        ensures
            final(self)@.wf(),
            user_inserted(old(self)@, final(self)@, UserRecord { id, email, password_hash }, r),
    {
        let n = self.users.len();
        let mut i: usize = 0;
        while i < n
            invariant
                i <= n,
                n == self.users.len(),
                *self == *old(self),
                old(self)@.wf(),
                forall|k: int|
                    0 <= k < i ==> (#[trigger] self.users@[k]).email@ != email@ && self.users@[k].id
                        != id,
            decreases n - i,
        {
            if self.users[i].email == email || self.users[i].id == id {
                return Err(unique_violation());
            }
            i = i + 1;
        }
        self.users.push(UserRecord { id, email, password_hash });
        proof {
            lemma_users_distinct_after_push(
                old(self)@.users,
                UserRecord { id, email, password_hash },
            );
        }
        Ok(())
    }

    /// Finds the user with the address `email`.
    pub fn find_by_email(&self, email: &str) -> (r: Option<UserRow>)
        ensures
            user_found(self@, email@, r),
    {
        let wanted = email.to_owned();
        let n = self.users.len();
        let mut i: usize = 0;
        while i < n
            invariant
                i <= n,
                n == self.users.len(),
                wanted@ == email@,
                forall|k: int| 0 <= k < i ==> (#[trigger] self.users@[k]).email@ != email@,
            decreases n - i,
        {
            if self.users[i].email == wanted {
                assert(self@.users[i as int].email@ == email@);
                return Some(
                    UserRow {
                        id: Some(self.users[i].id),
                        password_hash: Some(self.users[i].password_hash.clone()),
                    },
                );
            }
            i = i + 1;
        }
        None
    }

    /// Inserts a todo item that is not completed, unless the identifier is
    /// there already.
    pub fn insert_todo(&mut self, id: Id, owner: Id, title: String, created_at: Timestamp) -> (r:
        Result<(), StoreFailure>)
        requires
            old(self)@.wf(),
        ensures
            final(self)@.wf(),
            todo_inserted(
                old(self)@,
                final(self)@,
                TodoRecord { id, owner, title, completed: false, created_at },
                r,
            ),
    {
        let n = self.todos.len();
        let mut i: usize = 0;
        while i < n
            invariant
                i <= n,
                n == self.todos.len(),
                *self == *old(self),
                old(self)@.wf(),
                forall|k: int| 0 <= k < i ==> (#[trigger] self.todos@[k]).id != id,
            decreases n - i,
        {
            if self.todos[i].id == id {
                return Err(unique_violation());
            }
            i = i + 1;
        }
        self.todos.push(TodoRecord { id, owner, title, completed: false, created_at });
        proof {
            lemma_todos_distinct_after_push(
                old(self)@.todos,
                TodoRecord { id, owner, title, completed: false, created_at },
            );
        }
        Ok(())
    }

    /// Hands out the items of the user `owner`, oldest first.
    pub fn list_by_owner(&self, owner: Id) -> (rows: Vec<TodoRow>)
        ensures
            todos_listed(self@, owner, rows@),
    {
        let mut rows: Vec<TodoRow> = Vec::new();
        let n = self.todos.len();
        let mut i: usize = 0;
        assert(self.todos@.take(0) =~= Seq::<TodoRecord>::empty());
        while i < n
            invariant
                i <= n,
                n == self.todos.len(),
                rows.len() == owned_by(self.todos@.take(i as int), owner).len(),
                forall|k: int|
                    0 <= k < rows.len() ==> is_row_of_todo(
                        #[trigger] rows[k],
                        owned_by(self.todos@.take(i as int), owner)[k],
                    ),
            decreases n - i,
        {
            assert(self.todos@.take(i + 1).drop_last() =~= self.todos@.take(i as int));
            if self.todos[i].owner == owner {
                rows.push(row_of_todo(&self.todos[i]));
            }
            i = i + 1;
        }
        assert(self.todos@.take(n as int) =~= self.todos@);
        rows
    }

    /// Gives the item `id` a new title and a new state if the user `owner`
    /// owns it, and hands the item out as it then is.
    pub fn update_by_id_and_owner(
        &mut self,
        id: Id,
        owner: Id,
        title: String,
        completed: bool,
    ) -> (r: Option<TodoRow>)
        requires
            old(self)@.wf(),
        ensures
            final(self)@.wf(),
            todo_updated(old(self)@, final(self)@, id, owner, title, completed, r),
    {
        let n = self.todos.len();
        let mut i: usize = 0;
        while i < n
            invariant
                i <= n,
                n == self.todos.len(),
                *self == *old(self),
                old(self)@.wf(),
                forall|k: int| 0 <= k < i ==> !#[trigger] is_todo_at(self.todos@, id, owner, k),
            decreases n - i,
        {
            if self.todos[i].id == id && self.todos[i].owner == owner {
                let created_at = self.todos[i].created_at;
                self.todos[i] = TodoRecord { id, owner, title, completed, created_at };
                proof {
                    assert(is_todo_at(old(self)@.todos, id, owner, i as int));
                    lemma_todos_distinct_after_update(old(self)@.todos, i as int, self@.todos[i as int]);
                }
                return Some(row_of_todo(&self.todos[i]));
            }
            i = i + 1;
        }
        None
    }

    /// Deletes the item `id` if the user `owner` owns it, and tells how many
    /// items it deleted.
    pub fn delete_by_id_and_owner(&mut self, id: Id, owner: Id) -> (deleted: u64)
        requires
            old(self)@.wf(),
        ensures
            final(self)@.wf(),
            todo_deleted(old(self)@, final(self)@, id, owner, deleted),
    {
        let n = self.todos.len();
        let mut i: usize = 0;
        while i < n
            invariant
                i <= n,
                n == self.todos.len(),
                *self == *old(self),
                old(self)@.wf(),
                forall|k: int| 0 <= k < i ==> !#[trigger] is_todo_at(self.todos@, id, owner, k),
            decreases n - i,
        {
            if self.todos[i].id == id && self.todos[i].owner == owner {
                self.todos.remove(i);
                proof {
                    assert(is_todo_at(old(self)@.todos, id, owner, i as int));
                    lemma_todos_distinct_after_remove(old(self)@.todos, i as int);
                    assert forall|k: int| !#[trigger] is_todo_at(self@.todos, id, owner, k) by {
                        if 0 <= k < self@.todos.len() {
                            assert(self@.todos[k].id != id);
                        }
                    }
                }
                return 1;
            }
            i = i + 1;
        }
        0
    }

    /// Carries a request out and answers it. An item inserted gets the time
    /// `created_at`.
    pub fn serve(&mut self, command: StoreCommand, created_at: Timestamp) -> (answer:
        StoreAnswer)
        requires
            old(self)@.wf(),
        ensures
            final(self)@.wf(),
            is_answer(old(self)@, final(self)@, command, created_at, answer),
    {
        match command {
            StoreCommand::InsertUser { id, email, password_hash } => {
                StoreAnswer::Inserted(self.insert_user(id, email, password_hash))
            },
            StoreCommand::FindUserByEmail { email } => {
                StoreAnswer::User(self.find_by_email(email.as_str()))
            },
            StoreCommand::InsertTodo { id, owner, title } => {
                StoreAnswer::Inserted(self.insert_todo(id, owner, title, created_at))
            },
            StoreCommand::ListTodos { owner } => {
                StoreAnswer::Todos(self.list_by_owner(owner))
            },
            StoreCommand::UpdateTodo { id, owner, title, completed } => {
                StoreAnswer::Todo(self.update_by_id_and_owner(id, owner, title, completed))
            },
            StoreCommand::DeleteTodo { id, owner } => {
                StoreAnswer::Deleted(self.delete_by_id_and_owner(id, owner))
            },
        }
    }
}

} // verus!
