//! The agent's options, and the choice of object store they make.

use vstd::prelude::*;

verus! {

/// The object store backends.
#[derive(Debug, Clone, Copy, PartialEq, Eq, Structural)]
pub enum Provider {
    Aws,
    Gcp,
    Azure,
    S3Compat,
    Local,
}

/// Subcommands besides serving the transfer protocol.
#[derive(Debug, Clone, Copy, PartialEq, Eq, Structural)]
pub enum Commands {
    /// Set up the current repository (`local`) or the global git config.
    Setup { local: bool },
}

/// The options the agent was started with.
#[derive(Debug)]
pub struct Opts {
    debug: bool,
    provider: Option<Provider>,
    uri: Option<String>,
    command: Option<Commands>,
}

/// The store to build: a local directory, or a cloud bucket with an optional URL.
#[derive(Debug, Clone, PartialEq)]
pub enum StoreTarget {
    Local(String),
    Gcp(Option<String>),
    Aws(Option<String>),
}

/// Why no store can be built from the options.
#[derive(Debug, Clone, Copy, PartialEq, Eq, Structural)]
pub enum ConfigError {
    /// The local backend was chosen without a path.
    MissingLocalPath,
    /// No backend, or one this agent cannot build.
    Unsupported,
}

impl ConfigError {
    pub fn message(&self) -> (r: String)
        ensures
            *self == ConfigError::MissingLocalPath ==> r@
                == "Local LFS storage selected but no path was provided"@,
            *self == ConfigError::Unsupported ==> r@ == "unsupported storage provider"@,
    {
        match self {
            ConfigError::MissingLocalPath => String::from_str(
                "Local LFS storage selected but no path was provided",
            ),
            ConfigError::Unsupported => String::from_str("unsupported storage provider"),
        }
    }
}

impl Opts {
    pub closed spec fn spec_debug(&self) -> bool {
        self.debug
    }

    pub closed spec fn spec_provider(&self) -> Option<Provider> {
        self.provider
    }

    pub closed spec fn spec_uri(&self) -> Option<Seq<char>> {
        match self.uri {
            None => None,
            Some(u) => Some(u@),
        }
    }

    pub closed spec fn spec_command(&self) -> Option<Commands> {
        self.command
    }

    pub fn new(
        debug: bool,
        provider: Option<Provider>,
        uri: Option<String>,
        command: Option<Commands>,
    ) -> (r: Self)
        ensures
            r.spec_debug() == debug,
            r.spec_provider() == provider,
            r.spec_uri() == (match uri {
                None => None,
                Some(u) => Some(u@),
            }),
            r.spec_command() == command,
    {
        Opts { debug, provider, uri, command }
    }

    pub fn debug(&self) -> (r: bool)
        ensures
            r == self.spec_debug(),
    {
        self.debug
    }

    /// `None` without the setup subcommand; otherwise whether setup is local.
    pub fn setup(&self) -> (r: Option<bool>)
        ensures
            r == (match self.spec_command() {
                None => None,
                Some(Commands::Setup { local }) => Some(local),
            }),
    {
        match self.command {
            None => None,
            Some(Commands::Setup { local }) => Some(local),
        }
    }

    pub fn provider(&self) -> (r: Option<Provider>)
        ensures
            r == self.spec_provider(),
    {
        self.provider
    }

    pub fn uri(&self) -> (r: Option<&String>)
        ensures
            match r {
                None => self.spec_uri() is None,
                Some(u) => self.spec_uri() == Some(u@),
            },
    {
        match &self.uri {
            None => None,
            Some(u) => Some(u),
        }
    }

    /// The store these options select: the local backend needs a path; Google
    /// Cloud and AWS take the URL when one is given; any other choice is
    /// unsupported.
    pub fn store_target(&self) -> (r: Result<StoreTarget, ConfigError>)
        ensures
            match self.spec_provider() {
                Some(Provider::Local) => match self.spec_uri() {
                    None => r == Err::<StoreTarget, ConfigError>(ConfigError::MissingLocalPath),
                    Some(u) => r is Ok && r->Ok_0 is Local && r->Ok_0->Local_0@ == u,
                },
                Some(Provider::Gcp) => r is Ok && r->Ok_0 is Gcp && match self.spec_uri() {
                    None => r->Ok_0->Gcp_0 is None,
                    Some(u) => r->Ok_0->Gcp_0 is Some && r->Ok_0->Gcp_0->0@ == u,
                },
                Some(Provider::Aws) => r is Ok && r->Ok_0 is Aws && match self.spec_uri() {
                    None => r->Ok_0->Aws_0 is None,
                    Some(u) => r->Ok_0->Aws_0 is Some && r->Ok_0->Aws_0->0@ == u,
                },
                _ => r == Err::<StoreTarget, ConfigError>(ConfigError::Unsupported),
            },
    {
        let uri: Option<String> = match &self.uri {
            None => None,
            Some(u) => Some(u.clone()),
        };
        match self.provider {
            Some(Provider::Local) => match uri {
                None => Err(ConfigError::MissingLocalPath),
                Some(u) => Ok(StoreTarget::Local(u)),
            },
            Some(Provider::Gcp) => Ok(StoreTarget::Gcp(uri)),
            Some(Provider::Aws) => Ok(StoreTarget::Aws(uri)),
            _ => Err(ConfigError::Unsupported),
        }
    }
}

} // verus!
