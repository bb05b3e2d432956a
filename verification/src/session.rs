//! Pagination state of a search session, and the session that drives a
//! provider through it.

use vstd::prelude::*;
use crate::types::{SearchError, SearchMetadata, SearchResult};

verus! {

/// State for managing search sessions.
pub struct SearchSessionState<F> {
    pub metadata: Option<SearchMetadata<F>>,
    pub next_page_token: Option<String>,
    pub finished: bool,
    pub error: Option<SearchError>,
}

impl<F> SearchSessionState<F> {
    /// Another page can be asked for: the session is not finished and the
    /// provider handed out a token for the next page.
    pub open spec fn has_more(&self) -> bool {
        !self.finished && self.next_page_token is Some
    }

    /// An error is held only by a finished state. Every state that the
    /// operations below build or update keeps this.
    pub open spec fn consistent(&self) -> bool {
        self.error is Some ==> self.finished
    }

    /// A state with no metadata, no token, no error, not finished.
    pub fn new() -> (s: Self)
        ensures
            s.metadata is None,
            s.next_page_token is None,
            !s.finished,
            s.error is None,
            s.consistent(),
    {
        SearchSessionState { metadata: None, next_page_token: None, finished: false, error: None }
    }

    /// A state that starts from the metadata of a first response.
    pub fn with_metadata(metadata: SearchMetadata<F>) -> (s: Self)
        ensures
            s.next_page_token == metadata.next_page_token,
            s.metadata == Some(metadata),
            !s.finished,
            s.error is None,
            s.consistent(),
    {
        let next_page_token = crate::types::clone_optional_text(&metadata.next_page_token);
        SearchSessionState {
            metadata: Some(metadata),
            next_page_token,
            finished: false,
            error: None,
        }
    }

    /// Records an error; the session is finished from then on.
    pub fn set_error(&mut self, error: SearchError)
        ensures
            final(self).error == Some(error),
            final(self).finished,
            final(self).metadata == old(self).metadata,
            final(self).next_page_token == old(self).next_page_token,
            final(self).consistent(),
    {
        self.error = Some(error);
        self.finished = true;
    }

    /// Ends the session: it is finished and holds no token.
    pub fn set_finished(&mut self)
        ensures
            final(self).finished,
            final(self).next_page_token is None,
            final(self).metadata == old(self).metadata,
            final(self).error == old(self).error,
            final(self).consistent(),
    {
        self.finished = true;
        self.next_page_token = None;
    }

    /// Takes the metadata of a new page, if there is any, and finishes the
    /// session when no token for a further page is left.
    pub fn update_with_results(&mut self, results: Vec<SearchResult<F>>, metadata: Option<SearchMetadata<F>>)
        ensures
            metadata matches Some(m) ==> final(self).metadata == Some(m)
                && final(self).next_page_token == m.next_page_token,
            metadata is None ==> final(self).metadata == old(self).metadata
                && final(self).next_page_token == old(self).next_page_token,
            final(self).finished == (old(self).finished || final(self).next_page_token is None),
            final(self).error == old(self).error,
            old(self).consistent() ==> final(self).consistent(),
    {
        if let Some(metadata) = metadata {
            self.next_page_token = crate::types::clone_optional_text(&metadata.next_page_token);
            self.metadata = Some(metadata);
        }
        if self.next_page_token.is_none() {
            self.finished = true;
        }
    }

    /// Whether another page can be asked for.
    pub fn has_more_pages(&self) -> (r: bool)
        ensures
            r == self.has_more(),
    {
        !self.finished && self.next_page_token.is_some()
    }
}

/// What a provider implements to serve the pages of a session. It reads and
/// updates the session's state as it fetches.
pub trait SearchSessionProvider<F>: Sized {
    /// What the provider promises of one call of `next_page`: from provider
    /// `before` and state `state`, it may end as `after` and `state_after`
    /// and answer `r`. A provider that states nothing promises nothing.
    open spec fn serves(
        before: Self,
        state: SearchSessionState<F>,
        after: Self,
        state_after: SearchSessionState<F>,
        r: Result<Vec<SearchResult<F>>, SearchError>,
    ) -> bool {
        true
    }

    /// Fetches the next page, reading and updating the session's state.
    fn next_page(&mut self, state: &mut SearchSessionState<F>) -> (r: Result<Vec<SearchResult<F>>, SearchError>)
        ensures
            Self::serves(*old(self), *old(state), *final(self), *final(state), r),
    ;
}

/// A provider together with the state of its session.
pub struct SearchSession<P, F> {
    provider: P,
    state: SearchSessionState<F>,
}

impl<P: SearchSessionProvider<F>, F: Copy> SearchSession<P, F> {
    /// The provider of the session.
    pub closed spec fn provider_of(&self) -> P {
        self.provider
    }

    /// The state of the session.
    pub closed spec fn state_of(&self) -> SearchSessionState<F> {
        self.state
    }

    /// A session over `provider`, started from the metadata of a first
    /// response where there is one.
    pub fn new(provider: P, metadata: Option<SearchMetadata<F>>) -> (s: Self)
        ensures
            s.provider_of() == provider,
            s.state_of().metadata == metadata,
            metadata matches Some(m) ==> s.state_of().next_page_token == m.next_page_token,
            metadata is None ==> s.state_of().next_page_token is None,
            !s.state_of().finished,
            s.state_of().error is None,
    {
        let state = match metadata {
            Some(metadata) => SearchSessionState::with_metadata(metadata),
            None => SearchSessionState::new(),
        };
        SearchSession { provider, state }
    }

    /// The next page. A finished session answers with an empty page and a
    /// session holding an error answers with that error, both without asking
    /// the provider; otherwise the provider is asked with the session's own
    /// state, and its answer and the state it leaves are the session's.
    pub fn next_page(&mut self) -> (r: Result<Vec<SearchResult<F>>, SearchError>)
        ensures
            old(self).state_of().finished ==> (r matches Ok(page) && page.len() == 0)
                && *final(self) == *old(self),
            !old(self).state_of().finished && old(self).state_of().error is Some ==> r
                == Err::<Vec<SearchResult<F>>, SearchError>(old(self).state_of().error.unwrap())
                && *final(self) == *old(self),
            !old(self).state_of().finished && old(self).state_of().error is None ==> P::serves(
                old(self).provider_of(),
                old(self).state_of(),
                final(self).provider_of(),
                final(self).state_of(),
                r,
            ),
    {
        if self.state.finished {
            return Ok(Vec::new());
        }
        if let Some(error) = &self.state.error {
            return Err(error.clone());
        }
        self.provider.next_page(&mut self.state)
    }

    /// The metadata that the session holds.
    pub fn get_metadata(&self) -> (r: Option<SearchMetadata<F>>)
        ensures
            r == self.state_of().metadata,
    {
        match &self.state.metadata {
            Some(m) => Some(m.clone()),
            None => None,
        }
    }

    /// Whether the session is finished.
    pub fn is_finished(&self) -> (r: bool)
        ensures
            r == self.state_of().finished,
    {
        self.state.finished
    }
}

} // verus!
