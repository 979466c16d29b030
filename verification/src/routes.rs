//! The resource handlers: what each asks of a store, and what it replies to
//! the store's answer.

use vstd::prelude::*;
use crate::auth::argon2_matches;
use crate::auth::expiry_for;
use crate::auth::generate_jwt_at;
use crate::auth::hash_password;
use crate::auth::hash_under;
use crate::auth::is_hash_of;
use crate::auth::is_hash_under;
use crate::auth::is_salt_of_16_bytes;
use crate::auth::MAX_PASSWORD_BYTES;
use crate::auth::issued_token;
use crate::auth::unix_now;
use crate::auth::verify_password;
use crate::error::database_error;
use crate::error::AppError;
use crate::error::ErrorView;
use crate::ident::is_version_4;
use crate::ident::Id;
use crate::models::CreateTodoReq;
use crate::models::CreateTodoResponse;
use crate::models::LoginReq;
use crate::models::MessageResponse;
use crate::models::RegisterReq;
use crate::models::TodoResponse;
use crate::models::TodoView;
use crate::models::TokenResponse;
use crate::models::UpdateTodoReq;
use crate::store::is_unique_violation;
use crate::store::StoreCommand;
use crate::store::StoreCommandView;
use crate::store::StoreFailure;
use crate::store::TodoRow;
use crate::store::UserRow;
use crate::text::chars_of;
use crate::text::find_char;
use crate::text::first_index_of;
use crate::text::trim;
use crate::text::trim_bounds;
use crate::text::utf8_len;
use crate::text::utf8_len_at_least;

verus! {

/// Fewest bytes that a password takes once trimmed.
pub const MIN_PASSWORD_BYTES: usize = 8;

/// Whether `t` has a local part before its first `@` and, after it, a domain
/// with a dot in it.
pub open spec fn has_mailbox_shape(t: Seq<char>) -> bool {
    let at = first_index_of(t, '@');
    0 < at < t.len() && t.skip(at + 1).contains('.')
}

/// What is wrong with an email address, if anything.
pub open spec fn email_fault(email: Seq<char>) -> Option<Seq<char>> {
    let t = trim(email);
    if t.len() == 0 {
        Some("Email is required"@)
    } else if has_mailbox_shape(t) {
        None
    } else {
        Some("Invalid email format"@)
    }
}

/// What is wrong with a password, if anything.
pub open spec fn password_fault(password: Seq<char>) -> Option<Seq<char>> {
    if utf8_len(trim(password)) < MIN_PASSWORD_BYTES {
        Some("Password must be at least 8 characters"@)
    } else {
        None
    }
}

/// What is wrong with a todo item's title, if anything.
pub open spec fn title_fault(title: Seq<char>) -> Option<Seq<char>> {
    if trim(title).len() == 0 {
        Some("Title is required"@)
    } else {
        None
    }
}

/// What is wrong with an email address and a password, the address judged
/// first.
pub open spec fn credentials_fault(email: Seq<char>, password: Seq<char>) -> Option<Seq<char>> {
    match email_fault(email) {
        Some(message) => Some(message),
        None => password_fault(password),
    }
}

/// Whether `r` accepts an input without fault and refuses one with a fault
/// as a bad request with the fault's message.
pub open spec fn is_validation_reply(r: Result<(), AppError>, fault: Option<Seq<char>>) -> bool {
    match fault {
        None => r is Ok,
        Some(message) => r is Err && r->Err_0@ == ErrorView::BadRequest(message),
    }
}

/// Checks that an email address, once trimmed, is not empty and has a local
/// part, an `@` and a domain with a dot.
pub fn validate_email(email: &str) -> (r: Result<(), AppError>)
    ensures
        is_validation_reply(r, email_fault(email@)),
{
    let chars = chars_of(email);
    let (a, b) = trim_bounds(&chars);
    if a == b {
        return Err(AppError::bad_request("Email is required"));
    }
    let ghost t = trim(email@);
    let at = find_char(&chars, a, b, '@');
    if at == a || at == b {
        return Err(AppError::bad_request("Invalid email format"));
    }
    let dot = find_char(&chars, at + 1, b, '.');
    proof {
        let domain = t.skip(at - a + 1);
        assert(domain =~= chars@.subrange(at + 1, b as int));
        if dot < b {
            assert(domain[dot - at - 1] == '.');
        } else {
            assert forall|i: int| 0 <= i < domain.len() implies domain[i] != '.' by {
                assert(domain[i] == chars@[i + at + 1]);
            }
        }
    }
    if dot == b {
        Err(AppError::bad_request("Invalid email format"))
    } else {
        Ok(())
    }
}

/// Checks that a password, once trimmed, takes at least
/// `MIN_PASSWORD_BYTES` bytes.
pub fn validate_password(password: &str) -> (r: Result<(), AppError>)
    ensures
        is_validation_reply(r, password_fault(password@)),
{
    let chars = chars_of(password);
    let (a, b) = trim_bounds(&chars);
    if utf8_len_at_least(&chars, a, b, MIN_PASSWORD_BYTES) {
        Ok(())
    } else {
        Err(AppError::bad_request("Password must be at least 8 characters"))
    }
}

/// Checks that a title, once trimmed, is not empty.
pub fn validate_title(title: &str) -> (r: Result<(), AppError>)
    ensures
        is_validation_reply(r, title_fault(title@)),
{
    let chars = chars_of(title);
    let (a, b) = trim_bounds(&chars);
    if a == b {
        Err(AppError::bad_request("Title is required"))
    } else {
        Ok(())
    }
}

/// Checks an email address and then a password.
pub fn validate_credentials(email: &str, password: &str) -> (r: Result<(), AppError>)
    ensures
        is_validation_reply(r, credentials_fault(email@, password@)),
{
    match validate_email(email) {
        Ok(()) => validate_password(password),
        Err(e) => Err(e),
    }
}

/// Whether `r` is what registration asks for where the credentials have no
/// fault and hashing the password under `salt` gives `hashed`: where that is
/// a hash, the insertion of a user with a random identifier, the address
/// `email` and that hash; where it is none, a failure of the server.
pub open spec fn is_registration(
    r: Result<StoreCommand, AppError>,
    email: Seq<char>,
    hashed: Option<Seq<char>>,
) -> bool {
    match hashed {
        Some(hash) => {
            &&& r is Ok
            &&& r->Ok_0@ matches StoreCommandView::InsertUser { id, email: address, password_hash }
                && is_version_4(id.value) && address == email && password_hash == hash
        },
        None => r is Err && r->Err_0@ == ErrorView::Internal("Failed to hash password"@),
    }
}

/// What registration asks of the credential store: to insert a new user with
/// a fresh random identifier, the address as given and the hash of the
/// password under a fresh salt of 16 bytes. The insertion is owed wherever
/// the credentials have no fault and the password is within the limit of
/// Argon2; it fails only for a password beyond that limit, or where the hash
/// drawn is the password itself. The password verifies against the hash, and
/// the hash is not the password. Credentials with a fault are refused before
/// anything is hashed.
pub fn register_command(payload: &RegisterReq) -> (r: Result<StoreCommand, AppError>)
    ensures
        match credentials_fault(payload.email@, payload.password@) {
            Some(message) => r is Err && r->Err_0@ == ErrorView::BadRequest(message),
            None => {
                &&& exists|salt: Seq<char>|
                    is_salt_of_16_bytes(salt) && is_registration(
                        r,
                        payload.email@,
                        #[trigger] hash_under(payload.password@, salt),
                    )
                &&& r is Err ==> utf8_len(payload.password@) > MAX_PASSWORD_BYTES || is_hash_of(
                    payload.password@,
                    payload.password@,
                )
            },
        },
        r matches Ok(command) ==> command@ matches StoreCommandView::InsertUser {
            password_hash,
            ..
        } && is_hash_of(password_hash, payload.password@) && argon2_matches(
            password_hash,
            payload.password@,
        ) && password_hash != payload.password@,
{
    match validate_credentials(payload.email.as_str(), payload.password.as_str()) {
        Ok(()) => {},
        Err(e) => { return Err(e); },
    }
    let id = Id::random();
    let hashed = hash_password(payload.password.as_str());
    proof {
        let salt = choose|salt: Seq<char>|
            is_salt_of_16_bytes(salt) && is_hash_under(hashed.deep_view(), payload.password@, salt);
        assert(hashed.deep_view() == hash_under(payload.password@, salt));
    }
    match hashed {
        Some(password_hash) => Ok(
            StoreCommand::InsertUser { id, email: payload.email.clone(), password_hash },
        ),
        None => Err(AppError::internal("Failed to hash password")),
    }
}

/// The reply of registration to the credential store's answer.
pub open spec fn register_reply(result: Result<(), StoreFailure>) -> Result<Seq<char>, ErrorView> {
    match result {
        Ok(()) => Ok("User registered"@),
        Err(failure) => if failure.is_unique_violation_spec() {
            Err(ErrorView::BadRequest("User exists"@))
        } else {
            Err(database_error())
        },
    }
}

/// `r` as contracts see it.
pub open spec fn message_result_view(r: Result<MessageResponse, AppError>) -> Result<
    Seq<char>,
    ErrorView,
> {
    match r {
        Ok(response) => Ok(response.message@),
        Err(e) => Err(e@),
    }
}

/// Replies to the answer that the credential store gave to the insertion of
/// a new user. An address that is there already is the client's fault, any
/// other failure the server's.
pub fn register(result: Result<(), StoreFailure>) -> (r: Result<MessageResponse, AppError>)
    ensures
        message_result_view(r) == register_reply(result),
{
    match result {
        Ok(()) => Ok(MessageResponse { message: "User registered".to_owned() }),
        Err(failure) => {
            if is_unique_violation(&failure) {
                Err(AppError::bad_request("User exists"))
            } else {
                Err(AppError::from_store_failure(failure))
            }
        },
    }
}

/// What login asks of the credential store: the user with the address as
/// given. Credentials with a fault are refused.
pub fn login_command(payload: &LoginReq) -> (r: Result<StoreCommand, AppError>)
    ensures
        match credentials_fault(payload.email@, payload.password@) {
            Some(message) => r is Err && r->Err_0@ == ErrorView::BadRequest(message),
            None => r is Ok && r->Ok_0@ == (StoreCommandView::FindUserByEmail {
                email: payload.email@,
            }),
        },
{
    match validate_credentials(payload.email.as_str(), payload.password.as_str()) {
        Ok(()) => Ok(StoreCommand::FindUserByEmail { email: payload.email.clone() }),
        Err(e) => Err(e),
    }
}

/// The reply of a login to the credential store's answer: the token, or the
/// failure. An unknown address and a wrong password get the same reply.
pub open spec fn login_reply(
    found: Result<Option<UserRow>, StoreFailure>,
    password: Seq<char>,
    secret: Seq<char>,
    now: i64,
) -> Result<Seq<char>, ErrorView> {
    match found {
        Err(_) => Err(database_error()),
        Ok(None) => Err(ErrorView::Unauthorized("Invalid credentials"@)),
        Ok(Some(row)) => match (row.id, row.password_hash) {
            (None, _) => Err(ErrorView::Internal("Invalid user id"@)),
            (Some(_), None) => Err(ErrorView::Internal("Invalid password hash"@)),
            (Some(id), Some(hash)) => if argon2_matches(hash@, password) {
                match issued_token(id, secret, now) {
                    Some(token) => Ok(token),
                    None => Err(ErrorView::Internal("Failed to generate token"@)),
                }
            } else {
                Err(ErrorView::Unauthorized("Invalid credentials"@))
            },
        },
    }
}

/// `r` as contracts see it.
pub open spec fn token_result_view(r: Result<TokenResponse, AppError>) -> Result<
    Seq<char>,
    ErrorView,
> {
    match r {
        Ok(response) => Ok(response.token@),
        Err(e) => Err(e@),
    }
}

/// A login with a wrong password is answered as a login with an address that
/// no user has.
pub proof fn lemma_login_failures_alike(
    row: UserRow,
    password: Seq<char>,
    secret: Seq<char>,
    now: i64,
)
    requires
        row.id is Some,
        row.password_hash matches Some(hash) && !argon2_matches(hash@, password),
    ensures
        login_reply(Ok(Some(row)), password, secret, now) == login_reply(
            Ok(None),
            password,
            secret,
            now,
        ),
{
}

/// Whether a login is owed a token at `now`: the store found the user, both
/// columns could be read, the password matches the hash, and the expiry of a
/// token issued at `now` can be written.
pub open spec fn login_succeeds(
    found: Result<Option<UserRow>, StoreFailure>,
    password: Seq<char>,
    now: i64,
) -> bool {
    &&& found matches Ok(Some(row))
    &&& row.id is Some
    &&& row.password_hash matches Some(hash)
    &&& argon2_matches(hash@, password)
    &&& expiry_for(now) is Some
}

/// Whether `r` is the reply of a login at `now`: what `login_reply` says, and
/// a token exactly where one is owed.
pub open spec fn is_login_reply(
    r: Result<TokenResponse, AppError>,
    found: Result<Option<UserRow>, StoreFailure>,
    password: Seq<char>,
    secret: Seq<char>,
    now: i64,
) -> bool {
    &&& token_result_view(r) == login_reply(found, password, secret, now)
    &&& r is Ok <==> login_succeeds(found, password, now)
}

/// Replies at the time `now` to the answer that the credential store gave to
/// a login's lookup.
pub fn login_at(
    payload: &LoginReq,
    found: Result<Option<UserRow>, StoreFailure>,
    secret: &str,
    now: i64,
) -> (r: Result<TokenResponse, AppError>)
    ensures
        is_login_reply(r, found, payload.password@, secret@, now),
{
    let row = match found {
        Err(failure) => { return Err(AppError::from_store_failure(failure)); },
        Ok(None) => { return Err(AppError::unauthorized("Invalid credentials")); },
        Ok(Some(row)) => row,
    };
    let id = match row.id {
        Some(id) => id,
        None => { return Err(AppError::internal("Invalid user id")); },
    };
    let hash = match row.password_hash {
        Some(hash) => hash,
        None => { return Err(AppError::internal("Invalid password hash")); },
    };
    if !verify_password(hash.as_str(), payload.password.as_str()) {
        return Err(AppError::unauthorized("Invalid credentials"));
    }
    match generate_jwt_at(id, secret, now) {
        Some(token) => Ok(TokenResponse { token }),
        None => Err(AppError::internal("Failed to generate token")),
    }
}

/// Replies at the current time, which is one since the epoch, to the answer
/// that the credential store gave to a login's lookup.
pub fn login(payload: &LoginReq, found: Result<Option<UserRow>, StoreFailure>, secret: &str) -> (r:
    Result<TokenResponse, AppError>)
    ensures
        exists|now: i64|
            0 <= now && #[trigger] is_login_reply(r, found, payload.password@, secret@, now),
{
    let now = unix_now();
    let r = login_at(payload, found, secret, now);
    assert(is_login_reply(r, found, payload.password@, secret@, now));
    r
}

/// What the creation of a todo item asks of the todo store: to insert the
/// item `todo_id` with the title as given, owned by the user who asks. A
/// title with a fault is refused.
pub fn create_todo_command(user_id: Id, todo_id: Id, payload: &CreateTodoReq) -> (r: Result<
    StoreCommand,
    AppError,
>)
    ensures
        match title_fault(payload.title@) {
            Some(message) => r is Err && r->Err_0@ == ErrorView::BadRequest(message),
            None => r is Ok && r->Ok_0@ == (StoreCommandView::InsertTodo {
                id: todo_id,
                owner: user_id,
                title: payload.title@,
            }),
        },
{
    match validate_title(payload.title.as_str()) {
        Ok(()) => Ok(
            StoreCommand::InsertTodo { id: todo_id, owner: user_id, title: payload.title.clone() },
        ),
        Err(e) => Err(e),
    }
}

/// Replies to the answer that the todo store gave to the insertion of the
/// item `id`.
pub fn create_todo(id: Id, result: Result<(), StoreFailure>) -> (r: Result<
    CreateTodoResponse,
    AppError,
>)
    ensures
        match result {
            Ok(()) => r == Ok::<CreateTodoResponse, AppError>(CreateTodoResponse { id }),
            Err(_) => r is Err && r->Err_0@ == database_error(),
        },
{
    match result {
        Ok(()) => Ok(CreateTodoResponse { id }),
        Err(failure) => Err(AppError::from_store_failure(failure)),
    }
}

/// What the listing of todo items asks of the todo store: the items of the
/// user who asks.
pub fn list_todos_command(user_id: Id) -> (command: StoreCommand)
    ensures
        command@ == (StoreCommandView::ListTodos { owner: user_id }),
{
    StoreCommand::ListTodos { owner: user_id }
}

/// The todo item that a row of the todo store holds, or the failure that
/// names the first column that could not be read.
pub open spec fn todo_of_row(row: TodoRow) -> Result<TodoView, ErrorView> {
    match row.id {
        None => Err(ErrorView::Internal("Invalid todo id"@)),
        Some(id) => match row.title {
            None => Err(ErrorView::Internal("Invalid title"@)),
            Some(title) => match row.completed {
                None => Err(ErrorView::Internal("Invalid completed flag"@)),
                Some(completed) => match row.created_at {
                    None => Err(ErrorView::Internal("Invalid timestamp"@)),
                    Some(created_at) => Ok(TodoView { id, title: title@, completed, created_at }),
                },
            },
        },
    }
}

/// `r` as contracts see it.
pub open spec fn todo_result_view(r: Result<TodoResponse, AppError>) -> Result<
    TodoView,
    ErrorView,
> {
    match r {
        Ok(todo) => Ok(todo@),
        Err(e) => Err(e@),
    }
}

/// Turns a row of the todo store into a todo item.
pub fn todo_from_row(row: &TodoRow) -> (r: Result<TodoResponse, AppError>)
    ensures
        todo_result_view(r) == todo_of_row(*row),
{
    let id = match row.id {
        Some(id) => id,
        None => { return Err(AppError::internal("Invalid todo id")); },
    };
    let title = match &row.title {
        Some(title) => title.clone(),
        None => { return Err(AppError::internal("Invalid title")); },
    };
    let completed = match row.completed {
        Some(completed) => completed,
        None => { return Err(AppError::internal("Invalid completed flag")); },
    };
    let created_at = match row.created_at {
        Some(created_at) => created_at,
        None => { return Err(AppError::internal("Invalid timestamp")); },
    };
    Ok(TodoResponse { id, title, completed, created_at })
}

/// Whether `r` is the reply to the rows that the todo store gave for a
/// listing: every row's item in the store's order, or the failure of the
/// first row that holds none.
pub open spec fn is_list_reply(
    r: Result<Vec<TodoResponse>, AppError>,
    rows: Result<Vec<TodoRow>, StoreFailure>,
) -> bool {
    match rows {
        Err(_) => r is Err && r->Err_0@ == database_error(),
        Ok(rows) => match r {
            Ok(todos) => {
                &&& todos.len() == rows.len()
                &&& forall|i: int|
                    0 <= i < rows.len() ==> todo_of_row(#[trigger] rows[i]) == Ok::<
                        TodoView,
                        ErrorView,
                    >(todos[i]@)
            },
            Err(e) => exists|k: int|
                {
                    &&& 0 <= k < rows.len()
                    &&& #[trigger] todo_of_row(rows[k]) == Err::<TodoView, ErrorView>(e@)
                    &&& forall|i: int| 0 <= i < k ==> todo_of_row(#[trigger] rows[i]) is Ok
                },
        },
    }
}

/// Replies to the answer that the todo store gave to a listing.
pub fn list_todos(rows: Result<Vec<TodoRow>, StoreFailure>) -> (r: Result<
    Vec<TodoResponse>,
    AppError,
>)
    ensures
        is_list_reply(r, rows),
{
    let found = match rows {
        Ok(found) => found,
        Err(failure) => { return Err(AppError::from_store_failure(failure)); },
    };
    let mut response: Vec<TodoResponse> = Vec::new();
    let mut i: usize = 0;
    while i < found.len()
        invariant
            rows == Ok::<Vec<TodoRow>, StoreFailure>(found),
            i <= found.len(),
            response.len() == i,
            forall|j: int|
                0 <= j < i ==> todo_of_row(#[trigger] found[j]) == Ok::<TodoView, ErrorView>(
                    response[j]@,
                ),
        decreases found.len() - i,
    {
        match todo_from_row(&found[i]) {
            Ok(todo) => {
                response.push(todo);
            },
            Err(e) => {
                assert(todo_of_row(found[i as int]) == Err::<TodoView, ErrorView>(e@));
                return Err(e);
            },
        }
        i = i + 1;
    }
    Ok(response)
}

/// What the update of a todo item asks of the todo store: to give the item
/// `todo_id` the title and the state as given, if the user who asks owns it.
/// A title with a fault is refused.
pub fn update_todo_command(user_id: Id, todo_id: Id, payload: &UpdateTodoReq) -> (r: Result<
    StoreCommand,
    AppError,
>)
    ensures
        match title_fault(payload.title@) {
            Some(message) => r is Err && r->Err_0@ == ErrorView::BadRequest(message),
            None => r is Ok && r->Ok_0@ == (StoreCommandView::UpdateTodo {
                id: todo_id,
                owner: user_id,
                title: payload.title@,
                completed: payload.completed,
            }),
        },
{
    match validate_title(payload.title.as_str()) {
        Ok(()) => Ok(
            StoreCommand::UpdateTodo {
                id: todo_id,
                owner: user_id,
                title: payload.title.clone(),
                completed: payload.completed,
            },
        ),
        Err(e) => Err(e),
    }
}

/// The reply of an update to the todo store's answer. An item that is not
/// there and an item of another user get the same reply.
pub open spec fn update_reply(row: Result<Option<TodoRow>, StoreFailure>) -> Result<
    TodoView,
    ErrorView,
> {
    match row {
        Err(_) => Err(database_error()),
        Ok(None) => Err(ErrorView::NotFound("Todo not found"@)),
        Ok(Some(row)) => todo_of_row(row),
    }
}

/// Replies to the answer that the todo store gave to an update: the item as
/// it now is, where the store changed one.
pub fn update_todo(row: Result<Option<TodoRow>, StoreFailure>) -> (r: Result<
    TodoResponse,
    AppError,
>)
    ensures
        todo_result_view(r) == update_reply(row),
{
    match row {
        Err(failure) => Err(AppError::from_store_failure(failure)),
        Ok(None) => Err(AppError::not_found("Todo not found")),
        Ok(Some(row)) => todo_from_row(&row),
    }
}

/// What the removal of a todo item asks of the todo store: to delete the
/// item `todo_id`, if the user who asks owns it.
pub fn delete_todo_command(user_id: Id, todo_id: Id) -> (command: StoreCommand)
    ensures
        command@ == (StoreCommandView::DeleteTodo { id: todo_id, owner: user_id }),
{
    StoreCommand::DeleteTodo { id: todo_id, owner: user_id }
}

/// The reply of a removal to the number of items that the todo store
/// deleted. An item that is not there and an item of another user get the
/// same reply.
pub open spec fn delete_reply(result: Result<u64, StoreFailure>) -> Result<Seq<char>, ErrorView> {
    match result {
        Err(_) => Err(database_error()),
        Ok(deleted) => if deleted == 0 {
            Err(ErrorView::NotFound("Todo not found"@))
        } else {
            Ok("Todo deleted"@)
        },
    }
}

/// Replies to the answer that the todo store gave to a removal.
pub fn delete_todo(result: Result<u64, StoreFailure>) -> (r: Result<MessageResponse, AppError>)
    ensures
        message_result_view(r) == delete_reply(result),
{
    match result {
        Err(failure) => Err(AppError::from_store_failure(failure)),
        Ok(deleted) => {
            if deleted == 0 {
                Err(AppError::not_found("Todo not found"))
            } else {
                Ok(MessageResponse { message: "Todo deleted".to_owned() })
            }
        },
    }
}

} // verus!
