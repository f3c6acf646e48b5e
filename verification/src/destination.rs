//! Where a request is headed: the platform, the action on it, and the
//! connection that authorizes it.

use vstd::prelude::*;

verus! {

/// The actions a catalog model definition can describe.
#[derive(Debug, Clone, Copy, PartialEq, Eq, Structural)]
pub enum CrudAction {
    Create,
    Update,
    GetOne,
    GetMany,
    GetCount,
    Delete,
    Upsert,
    Custom,
}

/// The word a catalog action goes by.
pub open spec fn spec_crud_action_str(a: CrudAction) -> Seq<char> {
    match a {
        CrudAction::Create => "create"@,
        CrudAction::Update => "update"@,
        CrudAction::GetOne => "getOne"@,
        CrudAction::GetMany => "getMany"@,
        CrudAction::GetCount => "getCount"@,
        CrudAction::Delete => "delete"@,
        CrudAction::Upsert => "upsert"@,
        CrudAction::Custom => "custom"@,
    }
}

impl CrudAction {
    /// The textual form of this action.
    pub fn as_str(&self) -> (r: &'static str)
        ensures
            r@ == spec_crud_action_str(*self),
    {
        match self {
            CrudAction::Create => "create",
            CrudAction::Update => "update",
            CrudAction::GetOne => "getOne",
            CrudAction::GetMany => "getMany",
            CrudAction::GetCount => "getCount",
            CrudAction::Delete => "delete",
            CrudAction::Upsert => "upsert",
            CrudAction::Custom => "custom",
        }
    }
}

/// What a request asks of the upstream platform.
#[derive(Debug, Clone)]
pub enum Action {
    Passthrough { path: String, method: String, id: Option<String> },
    Unified { name: String, action: CrudAction, id: Option<String> },
}

/// The common-model name of a unified action; the path of a passthrough
/// one.
pub open spec fn spec_action_name(a: Action) -> Seq<char> {
    match a {
        Action::Passthrough { path, .. } => path@,
        Action::Unified { name, .. } => name@,
    }
}

/// The verb of an action: the catalog action of a unified call, the HTTP
/// method of a passthrough one.
pub open spec fn spec_action_text(a: Action) -> Seq<char> {
    match a {
        Action::Passthrough { method, .. } => method@,
        Action::Unified { action, .. } => spec_crud_action_str(action),
    }
}

impl Action {
    /// The common-model name of a unified action; the path of a
    /// passthrough one.
    pub fn name<'a>(&'a self) -> (r: &'a String)
        ensures
            r@ == spec_action_name(*self),
            match self {
                Action::Passthrough { path, .. } => r == path,
                Action::Unified { name, .. } => r == name,
            },
    {
        match self {
            Action::Passthrough { path, .. } => path,
            Action::Unified { name, .. } => name,
        }
    }

    /// The verb of this action.
    pub fn action_text<'a>(&'a self) -> (r: &'a str)
        ensures
            r@ == spec_action_text(*self),
    {
        match self {
            Action::Passthrough { method, .. } => method.as_str(),
            Action::Unified { action, .. } => action.as_str(),
        }
    }
}

/// The routing key of one upstream call.
#[derive(Debug, Clone)]
pub struct Destination {
    pub platform: String,
    pub action: Action,
    pub connection_key: String,
}

} // verus!
