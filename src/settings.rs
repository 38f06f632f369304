//! The application settings as the interface edits them, and the checks an
//! update must pass before anything is written.
use vstd::prelude::*;
use crate::json::opt_view;
use crate::models::AppError;
use crate::text::{trim_text, trim_white};

verus! {

/// The application settings.
#[derive(Clone, Debug)]
pub struct AppSettings {
    pub id: i64,
    pub worktree_base_path: String,
    pub default_base_branch: String,
    pub agent_timeout_minutes: i64,
    pub sync_interval_minutes: i64,
    pub created_at: String,
    pub updated_at: String,
}

/// A partial update of the settings: absent fields are kept.
#[derive(Clone, Debug)]
pub struct UpdateSettingsRequest {
    pub worktree_base_path: Option<String>,
    pub default_base_branch: Option<String>,
    pub agent_timeout_minutes: Option<i64>,
    pub sync_interval_minutes: Option<i64>,
}

impl UpdateSettingsRequest {
    /// Whether the request changes nothing.
    pub fn is_empty(&self) -> (r: bool)
        ensures
            r == (self.worktree_base_path is None && self.default_base_branch is None
                && self.agent_timeout_minutes is None && self.sync_interval_minutes is None),
    {
        self.worktree_base_path.is_none() && self.default_base_branch.is_none()
            && self.agent_timeout_minutes.is_none() && self.sync_interval_minutes.is_none()
    }
}

/// An optional text trimmed of surrounding white space; `None` when the
/// result would be empty.
pub open spec fn trimmed_text(o: Option<Seq<char>>) -> Option<Option<Seq<char>>> {
    match o {
        None => Some(None),
        Some(t) => if trim_white(t).len() == 0 {
            None
        } else {
            Some(Some(trim_white(t)))
        },
    }
}

/// An optional count that must be positive when given.
pub open spec fn positive_ok(o: Option<i64>) -> bool {
    match o {
        Some(m) => m > 0,
        None => true,
    }
}

/// The first failure of a settings update: an empty base path, an empty
/// base branch, a timeout or an interval that is not positive.
pub open spec fn settings_update_error(req: UpdateSettingsRequest) -> Option<Seq<char>> {
    if trimmed_text(opt_view(req.worktree_base_path)) is None {
        Some("worktree_base_path cannot be empty"@)
    } else if trimmed_text(opt_view(req.default_base_branch)) is None {
        Some("default_base_branch cannot be empty"@)
    } else if !positive_ok(req.agent_timeout_minutes) {
        Some("agent_timeout_minutes must be a positive number"@)
    } else if !positive_ok(req.sync_interval_minutes) {
        Some("sync_interval_minutes must be a positive number"@)
    } else {
        None
    }
}

/// Trims an optional text; `None` when it would be empty.
fn trim_optional(o: &Option<String>) -> (r: Option<Option<String>>)
    ensures
        match r {
            Some(x) => trimmed_text(opt_view(*o)) == Some(opt_view(x)),
            None => trimmed_text(opt_view(*o)) is None,
        },
{
    match o {
        None => Some(None),
        Some(t) => {
            let trimmed = trim_text(t.as_str());
            if trimmed.unicode_len() == 0 {
                None
            } else {
                Some(Some(String::from_str(trimmed)))
            }
        },
    }
}

/// Checks a settings update before anything is written: InvalidInput with
/// the first failure (see [`settings_update_error`]); else the update with
/// its texts trimmed and its counts as given.
pub fn validate_update_request(request: &UpdateSettingsRequest) -> (r: Result<
    UpdateSettingsRequest,
    AppError,
>)
    ensures
        match r {
            Ok(v) => settings_update_error(*request) is None && Some(opt_view(v.worktree_base_path))
                == trimmed_text(opt_view(request.worktree_base_path)) && Some(
                opt_view(v.default_base_branch),
            ) == trimmed_text(opt_view(request.default_base_branch)) && v.agent_timeout_minutes
                == request.agent_timeout_minutes && v.sync_interval_minutes
                == request.sync_interval_minutes,
            Err(e) => settings_update_error(*request) matches Some(t) && (
            e matches AppError::InvalidInput(m) && m@ == t),
        },
{
    let worktree_base_path = match trim_optional(&request.worktree_base_path) {
        Some(p) => p,
        None => {
            return Err(
                AppError::InvalidInput(String::from_str("worktree_base_path cannot be empty")),
            );
        },
    };
    let default_base_branch = match trim_optional(&request.default_base_branch) {
        Some(b) => b,
        None => {
            return Err(
                AppError::InvalidInput(String::from_str("default_base_branch cannot be empty")),
            );
        },
    };
    match request.agent_timeout_minutes {
        Some(m) => if m <= 0 {
            return Err(
                AppError::InvalidInput(
                    String::from_str("agent_timeout_minutes must be a positive number"),
                ),
            );
        },
        None => {},
    }
    match request.sync_interval_minutes {
        Some(m) => if m <= 0 {
            return Err(
                AppError::InvalidInput(
                    String::from_str("sync_interval_minutes must be a positive number"),
                ),
            );
        },
        None => {},
    }
    Ok(
        UpdateSettingsRequest {
            worktree_base_path,
            default_base_branch,
            agent_timeout_minutes: request.agent_timeout_minutes,
            sync_interval_minutes: request.sync_interval_minutes,
        },
    )
}

} // verus!
