//! The configuration of a run.

use vstd::prelude::*;

verus! {

/// The number of requests of a run where none is given.
pub const DEFAULT_TOTAL_REQUESTS: usize = 5000;

/// The batch size of a run where none is given.
pub const DEFAULT_BATCH_SIZE: usize = 1000;

/// Where the requests of a run go.
#[derive(Debug)]
pub enum Target {
    /// Every request goes to `url` as it stands.
    Literal { url: String },
    /// Every request goes to `base_url` with a query of its own, made of
    /// freshly drawn numbers.
    Templated { base_url: String },
}

/// A target as a mathematical value.
pub ghost enum TargetView {
    Literal { url: Seq<char> },
    Templated { base_url: Seq<char> },
}

impl View for Target {
    type V = TargetView;

    open spec fn view(&self) -> TargetView {
        match self {
            Target::Literal { url } => TargetView::Literal { url: url@ },
            Target::Templated { base_url } => TargetView::Templated { base_url: base_url@ },
        }
    }
}

/// The text of a token, where there is one.
pub open spec fn token_text(token: Option<String>) -> Option<Seq<char>> {
    match token {
        Some(text) => Some(text@),
        None => None,
    }
}

/// A copy of `token`.
pub fn copy_token(token: &Option<String>) -> (copy: Option<String>)
    ensures
        token_text(copy) == token_text(*token),
{
    match token {
        Some(text) => Some(text.clone()),
        None => None,
    }
}

/// Why a configuration was refused.
#[derive(Clone, Copy, Debug, PartialEq, Eq, Structural)]
pub enum ConfigError {
    /// A batch must hold at least one request.
    ZeroBatchSize,
}

/// The configuration of a run. It is made once, before the run, and not
/// changed after; its batch size is at least one.
#[derive(Debug)]
pub struct RunConfig {
    total_requests: usize,
    batch_size: usize,
    target: Target,
    auth_token: Option<String>,
}

/// A configuration as a mathematical value.
pub ghost struct RunConfigView {
    pub total_requests: nat,
    pub batch_size: nat,
    pub target: TargetView,
    pub auth_token: Option<Seq<char>>,
}

impl View for RunConfig {
    type V = RunConfigView;

    closed spec fn view(&self) -> RunConfigView {
        RunConfigView {
            total_requests: self.total_requests as nat,
            batch_size: self.batch_size as nat,
            target: self.target@,
            auth_token: token_text(self.auth_token),
        }
    }
}

impl RunConfig {
    #[verifier::type_invariant]
    spec fn positive_batch_size(self) -> bool {
        self.batch_size >= 1
    }

    /// A configuration of these values; refused where `batch_size` is zero.
    pub fn new(
        total_requests: usize,
        batch_size: usize,
        target: Target,
        auth_token: Option<String>,
    ) -> (config: Result<RunConfig, ConfigError>)
        ensures
            config is Err <==> batch_size == 0,
            config matches Err(error) ==> error == ConfigError::ZeroBatchSize,
            config matches Ok(made) ==> made@ == (RunConfigView {
                total_requests: total_requests as nat,
                batch_size: batch_size as nat,
                target: target@,
                auth_token: token_text(auth_token),
            }),
    {
        if batch_size == 0 {
            Err(ConfigError::ZeroBatchSize)
        } else {
            Ok(RunConfig { total_requests, batch_size, target, auth_token })
        }
    }

    /// The number of requests of the run.
    pub fn total_requests(&self) -> (total: usize)
        ensures
            total == self@.total_requests,
    {
        self.total_requests
    }

    /// The largest number of requests in flight at a time.
    pub fn batch_size(&self) -> (size: usize)
        ensures
            size == self@.batch_size,
            size >= 1,
    {
        proof {
            use_type_invariant(self);
        }
        self.batch_size
    }

    /// Where the requests go.
    pub fn target(&self) -> (target: &Target)
        ensures
            target@ == self@.target,
    {
        &self.target
    }

    /// The token sent with each request, where there is one.
    pub fn auth_token(&self) -> (token: &Option<String>)
        ensures
            token_text(*token) == self@.auth_token,
    {
        &self.auth_token
    }
}

} // verus!
