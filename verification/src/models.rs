//! The requests, answers and records that pass between the service, its
//! clients and its database, with the validation rules of the requests.
//! Times are microseconds since the Unix epoch.

use vstd::prelude::*;
use crate::validation::{
    ErrorEntries, ValidationErrors, add_if, email_valid, length_within, opt_length_within,
    check_email, check_length, check_birthday, opt_birthday_shape, check_opt_length, check_list_length, record, finish,
};

verus! {

/// The body of a registration: the user to register.
#[derive(Debug)]
pub struct RegisterRequestWrapper {
    pub user: RegisterRequest,
}

/// A registration.
#[derive(Debug)]
pub struct RegisterRequest {
    pub email: String,
    pub username: String,
    pub birthday: Option<String>,
    pub display_name: String,
    pub description: Option<String>,
}

/// The answer to a registration.
#[derive(Debug)]
pub struct RegisterResponse {
    pub token: String,
    pub user_id: i64,
}

/// The answer to a verified code.
#[derive(Debug)]
pub struct NewUserVerifyResponse {
    pub is_new_user: bool,
    pub token: String,
    pub user_id: i64,
}

/// A request for a verification code.
#[derive(Debug)]
pub struct CodeRequest {
    pub email: String,
}

/// A verification code sent back.
#[derive(Debug)]
pub struct VerifyCodeRequest {
    pub email: String,
    pub code: String,
}

/// A question whether a username is free.
#[derive(Debug)]
pub struct CheckUsernameRequest {
    pub username: String,
}

/// Changes to a user's data; absent fields stay as they are.
#[derive(Debug)]
pub struct EditUserRequest {
    pub username: Option<String>,
    pub birthday: Option<String>,
    pub display_name: Option<String>,
    pub description: Option<String>,
}

/// A user's data, wrapped.
#[derive(Debug)]
pub struct GetUserDataResponseWrapper {
    pub user: UserDataResponse,
}

/// A user's data.
#[derive(Debug)]
pub struct UserDataResponse {
    pub user_id: i64,
    pub username: String,
    pub email: String,
    pub display_name: Option<String>,
    pub birthday: Option<String>,
    pub description: Option<String>,
}

/// A new event.
#[derive(Debug)]
pub struct CreateEventRequest {
    pub title: String,
    pub location: Option<String>,
    pub description_event: Option<String>,
    pub start_date_time: Option<String>,
    pub end_date_time: Option<String>,
    pub color: String,
}

/// A created event.
#[derive(Debug)]
pub struct CreateEventResponse {
    pub event_id: String,
    pub title: String,
    pub description_event: Option<String>,
    pub location: Option<String>,
    pub start_date_time: Option<String>,
    pub end_date_time: Option<String>,
    pub color: String,
    pub created_by: String,
    pub created_at: String,
    pub status_event: String,
}

/// An event and one of its members.
#[derive(Debug)]
pub struct EventPaths {
    pub event_id: i64,
    pub user_id: i64,
}

/// A page of a user's events with a given status.
#[derive(Debug)]
pub struct GetEvents {
    pub status: String,
    pub limit: i64,
    pub offset: i64,
}

/// A new status of an event.
#[derive(Debug)]
pub struct UpdateStatusEventRequest {
    pub status: String,
}

/// Changes to an event; absent fields stay as they are.
#[derive(Debug)]
pub struct UpdateEventRequest {
    pub title: Option<String>,
    pub location: Option<String>,
    pub description_event: Option<String>,
    pub start_date_time: Option<String>,
    pub end_date_time: Option<String>,
    pub color: Option<String>,
}

/// A request to join an event by its invitation token.
#[derive(Debug)]
pub struct JoinEventRequest {
    pub invite_token: String,
}

/// New permissions for a member, as decimal text.
#[derive(Debug)]
pub struct UpdateUserPermissionsRequest {
    pub user_id: i64,
    pub new_permissions: String,
}

/// A member of an event.
#[derive(Debug)]
pub struct EventMembers {
    pub user_id: i64,
    pub username: String,
    pub permissions: i32,
    pub joined_at: i64,
}

/// An invitation token.
#[derive(Debug)]
pub struct InviteUserToEventRequest {
    pub invite_token: String,
}

/// An event and one of its planning modules.
#[derive(Debug)]
pub struct EventModule {
    pub event_id: i64,
    pub module_id: i64,
}

/// A new status of an event ("active" or "archived").
#[derive(Debug)]
pub struct UpdateEventStatusRequest {
    pub status: String,
}

/// An answer that only reports success.
#[derive(Debug)]
pub struct SuccessResponse {
    pub success: bool,
}

/// An answer that reports an error.
#[derive(Debug)]
pub struct ErrorResponse {
    pub error: String,
}

/// A new poll.
#[derive(Debug)]
pub struct CreatePollRequest {
    pub title: String,
    pub options: Vec<String>,
    pub multiple_choice: bool,
}

/// A new question for a poll.
#[derive(Debug)]
pub struct UpdatePollRequest {
    pub question: String,
}

/// A vote: the places of the chosen options.
#[derive(Debug)]
pub struct VotePollRequest {
    pub option_indexes: Vec<i32>,
}

/// A poll to delete.
#[derive(Debug)]
pub struct DeletePollRequest {
    pub poll_id: i64,
}

/// A created poll.
#[derive(Debug)]
pub struct PollResponse {
    pub poll_id: i64,
}

/// A new list of things to bring.
#[derive(Debug)]
pub struct CreateItemListRequest {
    pub title: String,
    pub items: Vec<String>,
}

/// A created list of things.
#[derive(Debug)]
pub struct ItemListResponse {
    pub item_list_id: i64,
}

/// Changes to a list of things: items to add, ids (as text) of items to remove.
#[derive(Debug)]
pub struct UpdateItemsListRequest {
    pub item_list_id: i64,
    pub add: Option<Vec<String>>,
    pub remove: Option<Vec<String>>,
}

/// Taking (`true`) or giving back (`false`) an item.
#[derive(Debug)]
pub struct AssignItemRequest {
    pub assign: bool,
}

/// A list of things to delete.
#[derive(Debug)]
pub struct DeleteItemListRequest {
    pub item_list_id: i64,
}

/// A new list of tasks.
#[derive(Debug)]
pub struct CreateTaskListRequest {
    pub title: String,
    pub items: Vec<String>,
}

/// A created list of tasks.
#[derive(Debug)]
pub struct CreateTaskListResponse {
    pub task_list_id: i64,
}

/// A deleted list of tasks.
#[derive(Debug)]
pub struct DeleteTaskListResponse {
    pub task_list_id: i64,
}

/// Changes to a list of tasks: tasks to add, ids (as text) of tasks to remove.
#[derive(Debug)]
pub struct UpdateTaskListRequest {
    pub task_list_id: i64,
    pub add: Option<Vec<String>>,
    pub remove: Option<Vec<String>>,
}

/// Taking (`true`) or giving back (`false`) a task.
#[derive(Debug)]
pub struct AssignTaskRequest {
    pub task_id: i64,
    pub assign: bool,
}

/// Marking a task as done or not.
#[derive(Debug)]
pub struct CompleteTaskRequest {
    pub task_id: i64,
    pub completed: bool,
}

/// Three ids from a path.
#[derive(Debug)]
pub struct PathParams {
    pub first_id: i32,
    pub second_id: i32,
    pub third_id: i32,
}

/// All planning modules of an event.
#[derive(Debug)]
pub struct PlanningModulesResponse {
    pub modules: Vec<PlanningModule>,
}

/// One planning module of an event.
#[derive(Debug)]
pub enum PlanningModule {
    Poll { id: String, title: String, data: PollModuleData },
    ItemList { id: String, title: String, data: ItemListModuleData },
    TaskList { id: String, title: String, data: TaskListModuleData },
}

/// A poll as a planning module.
#[derive(Debug)]
pub struct PollModuleData {
    pub options: Vec<String>,
    pub multiple_choice: bool,
    pub votes: Vec<PollVote>,
    pub votes_count: Vec<i32>,
    pub own_vote: Vec<i32>,
}

/// One vote of one user for one option.
#[derive(Debug)]
pub struct PollVote {
    pub option_index: i32,
    pub user_id: String,
}

/// A list of things as a planning module.
#[derive(Debug)]
pub struct ItemListModuleData {
    pub items: Vec<ItemListItemData>,
}

/// One thing of a list.
#[derive(Debug)]
pub struct ItemListItemData {
    pub id: String,
    pub text: String,
    pub assigned_user_id: Option<String>,
    pub assigned_user_name: Option<String>,
}

/// A list of tasks as a planning module.
#[derive(Debug)]
pub struct TaskListModuleData {
    pub items: Vec<TaskListItemData>,
}

/// One task of a list.
#[derive(Debug)]
pub struct TaskListItemData {
    pub id: String,
    pub text: String,
    pub assigned_user_id: Option<String>,
    pub assigned_user_name: Option<String>,
    pub completed: bool,
}

/// A new album.
#[derive(Debug)]
pub struct CreateAlbumRequest {
    pub title: String,
    pub description: Option<String>,
}

/// An album.
#[derive(Debug)]
pub struct AlbumResponse {
    pub album_id: i64,
    pub event_id: i64,
    pub title: String,
    pub description: Option<String>,
    pub created_by: i64,
    pub created_at: i64,
    pub updated_at: i64,
}

/// An album with its photos.
#[derive(Debug)]
pub struct AlbumWithPhotosResponse {
    pub album_id: i64,
    pub event_id: i64,
    pub title: String,
    pub description: Option<String>,
    pub created_by: i64,
    pub created_at: i64,
    pub photos: Vec<PhotoResponse>,
}

/// A photo of an album.
#[derive(Debug)]
pub struct PhotoResponse {
    pub photo_id: i64,
    pub file_name: String,
    pub original_name: Option<String>,
    pub mime_type: Option<String>,
    pub file_size: Option<i64>,
    pub uploaded_by: i64,
    pub created_at: i64,
    pub url: String,
}

/// The errors of a registration.
pub open spec fn register_request_errors(r: RegisterRequest) -> ErrorEntries {
    let e0 = Seq::empty();
    let e1 = add_if(e0, !email_valid(r.email@), "email"@, "email"@, Some("Email format invalid"@));
    let e2 = add_if(e1, !length_within(r.username@.len(), Some(5), Some(30)), "username"@, "length"@,
        Some("Username length must be more than 4 characters"@));
    let e3 = add_if(e2, !opt_birthday_shape(r.birthday), "birthday"@, "length"@,
        Some("Birthday format must be xx-xx-xxxx"@));
    let e4 = add_if(e3, !length_within(r.display_name@.len(), Some(1), Some(100)), "display_name"@,
        "length"@, Some("Display name cannot be empty"@));
    add_if(e4, !opt_length_within(r.description, None, Some(100)), "description"@, "length"@,
        Some("Description length can't be more than 100 characters"@))
}

/// The errors of a code request.
pub open spec fn code_request_errors(r: CodeRequest) -> ErrorEntries {
    add_if(Seq::empty(), !email_valid(r.email@), "email"@, "email"@, Some("Email format invalid"@))
}

/// The errors of a verification code.
pub open spec fn verify_code_request_errors(r: VerifyCodeRequest) -> ErrorEntries {
    let e1 = add_if(Seq::empty(), !email_valid(r.email@), "email"@, "email"@,
        Some("Email format invalid"@));
    add_if(e1, !length_within(r.code@.len(), Some(6), Some(6)), "code"@, "length"@,
        Some("Code must be 6 digits"@))
}

/// The errors of a username question.
pub open spec fn check_username_request_errors(r: CheckUsernameRequest) -> ErrorEntries {
    add_if(Seq::empty(), !length_within(r.username@.len(), Some(3), None), "username"@, "length"@,
        Some("Username must be at least 3 characters"@))
}

/// The errors of changes to a user.
pub open spec fn edit_user_request_errors(r: EditUserRequest) -> ErrorEntries {
    let e1 = add_if(Seq::empty(), !opt_length_within(r.username, Some(5), Some(30)), "username"@,
        "length"@, Some("Username length must be more than 4 characters"@));
    let e2 = add_if(e1, !opt_birthday_shape(r.birthday), "birthday"@, "length"@,
        Some("Birthday format must be xx-xx-xxxx"@));
    let e3 = add_if(e2, !opt_length_within(r.display_name, Some(1), Some(100)), "display_name"@,
        "length"@, Some("Display name cannot be empty"@));
    add_if(e3, !opt_length_within(r.description, None, Some(100)), "description"@, "length"@,
        Some("Description length can't be more than 100 characters"@))
}

/// The errors of a vote.
pub open spec fn vote_poll_request_errors(r: VotePollRequest) -> ErrorEntries {
    add_if(Seq::empty(), !length_within(r.option_indexes@.len(), Some(1), None), "option_indexes"@,
        "length"@, Some("At least one option"@))
}

/// The errors of a new list of things.
pub open spec fn create_item_list_request_errors(r: CreateItemListRequest) -> ErrorEntries {
    add_if(Seq::empty(), !length_within(r.items@.len(), Some(1), None), "items"@, "length"@,
        Some("Items cannot be empty"@))
}

/// The errors of a new list of tasks.
pub open spec fn create_task_list_request_errors(r: CreateTaskListRequest) -> ErrorEntries {
    add_if(Seq::empty(), !length_within(r.items@.len(), Some(1), None), "items"@, "length"@,
        Some("Tasks cannot be empty"@))
}

/// The errors of a new album (the rule on the description has no message).
pub open spec fn create_album_request_errors(r: CreateAlbumRequest) -> ErrorEntries {
    let e1 = add_if(Seq::empty(), !length_within(r.title@.len(), Some(1), Some(200)), "title"@,
        "length"@, Some("Title must be between 1 and 200 characters"@));
    add_if(e1, !opt_length_within(r.description, None, Some(1000)), "description"@, "length"@, None)
}

/// `Ok` where no rule failed, else the errors, which are then not empty.
pub open spec fn validation_outcome(r: Result<(), ValidationErrors>, errors: ErrorEntries) -> bool {
    match r {
        Ok(_) => errors.len() == 0,
        Err(e) => e@ == errors && errors.len() > 0,
    }
}

impl RegisterRequest {
    /// Checks every field rule of a registration.
    pub fn validate(&self) -> (r: Result<(), ValidationErrors>)
        ensures
            validation_outcome(r, register_request_errors(*self)),
    {
        let mut e = ValidationErrors::new();
        let ok = check_email(self.email.as_str());
        record(&mut e, !ok, "email", "email", Some("Email format invalid"));
        let ok = check_length(self.username.as_str(), Some(5), Some(30));
        record(&mut e, !ok, "username", "length",
            Some("Username length must be more than 4 characters"));
        let ok = check_birthday(&self.birthday);
        record(&mut e, !ok, "birthday", "length", Some("Birthday format must be xx-xx-xxxx"));
        let ok = check_length(self.display_name.as_str(), Some(1), Some(100));
        record(&mut e, !ok, "display_name", "length", Some("Display name cannot be empty"));
        let ok = check_opt_length(&self.description, None, Some(100));
        record(&mut e, !ok, "description", "length",
            Some("Description length can't be more than 100 characters"));
        finish(e)
    }
}

impl CodeRequest {
    /// Checks the address of a code request.
    pub fn validate(&self) -> (r: Result<(), ValidationErrors>)
        ensures
            validation_outcome(r, code_request_errors(*self)),
    {
        let mut e = ValidationErrors::new();
        let ok = check_email(self.email.as_str());
        record(&mut e, !ok, "email", "email", Some("Email format invalid"));
        finish(e)
    }
}

impl VerifyCodeRequest {
    /// Checks the address and the code.
    pub fn validate(&self) -> (r: Result<(), ValidationErrors>)
        ensures
            validation_outcome(r, verify_code_request_errors(*self)),
    {
        let mut e = ValidationErrors::new();
        let ok = check_email(self.email.as_str());
        record(&mut e, !ok, "email", "email", Some("Email format invalid"));
        let ok = check_length(self.code.as_str(), Some(6), Some(6));
        record(&mut e, !ok, "code", "length", Some("Code must be 6 digits"));
        finish(e)
    }
}

impl CheckUsernameRequest {
    /// Checks the username.
    pub fn validate(&self) -> (r: Result<(), ValidationErrors>)
        ensures
            validation_outcome(r, check_username_request_errors(*self)),
    {
        let mut e = ValidationErrors::new();
        let ok = check_length(self.username.as_str(), Some(3), None);
        record(&mut e, !ok, "username", "length", Some("Username must be at least 3 characters"));
        finish(e)
    }
}

impl EditUserRequest {
    /// Checks the given fields; absent ones pass.
    pub fn validate(&self) -> (r: Result<(), ValidationErrors>)
        ensures
            validation_outcome(r, edit_user_request_errors(*self)),
    {
        let mut e = ValidationErrors::new();
        let ok = check_opt_length(&self.username, Some(5), Some(30));
        record(&mut e, !ok, "username", "length",
            Some("Username length must be more than 4 characters"));
        let ok = check_birthday(&self.birthday);
        record(&mut e, !ok, "birthday", "length", Some("Birthday format must be xx-xx-xxxx"));
        let ok = check_opt_length(&self.display_name, Some(1), Some(100));
        record(&mut e, !ok, "display_name", "length", Some("Display name cannot be empty"));
        let ok = check_opt_length(&self.description, None, Some(100));
        record(&mut e, !ok, "description", "length",
            Some("Description length can't be more than 100 characters"));
        finish(e)
    }
}

impl VotePollRequest {
    /// Checks that at least one option is chosen.
    pub fn validate(&self) -> (r: Result<(), ValidationErrors>)
        ensures
            validation_outcome(r, vote_poll_request_errors(*self)),
    {
        let mut e = ValidationErrors::new();
        let ok = check_list_length(&self.option_indexes, Some(1), None);
        record(&mut e, !ok, "option_indexes", "length", Some("At least one option"));
        finish(e)
    }
}

impl CreateItemListRequest {
    /// Checks that the list has items.
    pub fn validate(&self) -> (r: Result<(), ValidationErrors>)
        ensures
            validation_outcome(r, create_item_list_request_errors(*self)),
    {
        let mut e = ValidationErrors::new();
        let ok = check_list_length(&self.items, Some(1), None);
        record(&mut e, !ok, "items", "length", Some("Items cannot be empty"));
        finish(e)
    }
}

impl CreateTaskListRequest {
    /// Checks that the list has tasks.
    pub fn validate(&self) -> (r: Result<(), ValidationErrors>)
        ensures
            validation_outcome(r, create_task_list_request_errors(*self)),
    {
        let mut e = ValidationErrors::new();
        let ok = check_list_length(&self.items, Some(1), None);
        record(&mut e, !ok, "items", "length", Some("Tasks cannot be empty"));
        finish(e)
    }
}

impl CreateAlbumRequest {
    /// Checks the title and the description of a new album.
    pub fn validate(&self) -> (r: Result<(), ValidationErrors>)
        ensures
            validation_outcome(r, create_album_request_errors(*self)),
    {
        let mut e = ValidationErrors::new();
        let ok = check_length(self.title.as_str(), Some(1), Some(200));
        record(&mut e, !ok, "title", "length", Some("Title must be between 1 and 200 characters"));
        let ok = check_opt_length(&self.description, None, Some(1000));
        record(&mut e, !ok, "description", "length", None);
        finish(e)
    }
}

} // verus!
