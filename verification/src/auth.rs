//! How a session authenticates, decided by the credentials of a profile.

use crate::config::{Server, ServerView};
use vstd::prelude::*;

verus! {

/// The way in which a session authenticates.
#[derive(Debug, Clone, PartialEq, Eq)]
pub enum AuthStrategy {
    /// With the private key kept in the file at this path.
    KeyAuth(String),
    /// With this password, handed to the client by the helper.
    PasswordAuth(String),
    /// With nothing from the profile: the client asks, or an agent answers.
    NoSecret,
}

/// A strategy as mathematical values.
pub ghost enum StrategyView {
    KeyAuth(Seq<char>),
    PasswordAuth(Seq<char>),
    NoSecret,
}

impl View for AuthStrategy {
    type V = StrategyView;

    open spec fn view(&self) -> StrategyView {
        match self {
            AuthStrategy::KeyAuth(path) => StrategyView::KeyAuth(path@),
            AuthStrategy::PasswordAuth(password) => StrategyView::PasswordAuth(password@),
            AuthStrategy::NoSecret => StrategyView::NoSecret,
        }
    }
}

/// The strategy of a profile: its key file where it names one, whatever else
/// it holds; else its password where it has one; else no secret.
pub open spec fn strategy_of(server: ServerView) -> StrategyView {
    if server.identity_file.len() > 0 {
        StrategyView::KeyAuth(server.identity_file)
    } else if server.password.len() > 0 {
        StrategyView::PasswordAuth(server.password)
    } else {
        StrategyView::NoSecret
    }
}

/// Picks the strategy of a profile.
pub fn select_strategy(server: &Server) -> (r: AuthStrategy)
    ensures
        r@ == strategy_of(server@),
        server@.identity_file.len() > 0 ==> r@ == StrategyView::KeyAuth(server@.identity_file),
{
    if !server.identity_file.as_str().is_empty() {
        AuthStrategy::KeyAuth(server.identity_file.clone())
    } else if !server.password.as_str().is_empty() {
        AuthStrategy::PasswordAuth(server.password.clone())
    } else {
        AuthStrategy::NoSecret
    }
}

} // verus!
