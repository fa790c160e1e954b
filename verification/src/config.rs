//! The configuration of a run, as the command line hands it over.

use vstd::prelude::*;
use crate::discovery::{choose_threads, discovery_threads, threads_for, WalkSettings};
use crate::warming::WarmingOptions;

verus! {

/// Everything a run is configured with.
#[derive(Debug, Clone, Copy, PartialEq, Eq, Structural)]
pub struct Config {
    /// Units of work that may run at once.
    pub queue_depth: usize,
    /// Threads for the discovery; `None` for one per processor.
    pub threads: Option<usize>,
    /// The number of root directories given.
    pub roots: usize,
    pub follow_symlinks: bool,
    pub respect_gitignore: bool,
    pub max_depth: Option<usize>,
    pub ignore_hidden: bool,
    /// Files over this size are skipped; zero for no limit.
    pub max_file_size: u64,
    /// Files over this size are sampled; zero for never.
    pub sparse_large_files: u64,
    /// Files per unit of work.
    pub batch_size: usize,
    pub direct_io: bool,
    pub io_uring: bool,
    pub libaio: bool,
}

/// What keeps a run from starting.
#[derive(Debug, Clone, Copy, PartialEq, Eq, Structural)]
pub enum ConfigError {
    /// No root directory was given.
    NoRoots,
    /// With a queue depth of zero nothing could ever run.
    ZeroQueueDepth,
}

impl Config {
    /// The configuration of a run over `roots` directories with nothing else
    /// set: 32 units at once, batches of 1000 files, no size limit, no
    /// sampling, no advanced backend.
    pub open spec fn defaults(roots: usize) -> Config {
        Config {
            queue_depth: 32,
            threads: None,
            roots,
            follow_symlinks: false,
            respect_gitignore: false,
            max_depth: None,
            ignore_hidden: false,
            max_file_size: 0,
            sparse_large_files: 0,
            batch_size: 1000,
            direct_io: false,
            io_uring: false,
            libaio: false,
        }
    }

    pub fn with_defaults(roots: usize) -> (config: Config)
        ensures
            config == Config::defaults(roots),
    {
        Config {
            queue_depth: 32,
            threads: None,
            roots,
            follow_symlinks: false,
            respect_gitignore: false,
            max_depth: None,
            ignore_hidden: false,
            max_file_size: 0,
            sparse_large_files: 0,
            batch_size: 1000,
            direct_io: false,
            io_uring: false,
            libaio: false,
        }
    }

    /// What is wrong with the configuration, if anything: a missing root is
    /// reported before a queue depth of zero.
    pub open spec fn problem(self) -> Option<ConfigError> {
        if self.roots == 0 {
            Some(ConfigError::NoRoots)
        } else if self.queue_depth == 0 {
            Some(ConfigError::ZeroQueueDepth)
        } else {
            None
        }
    }

    /// Checks that a run can start.
    pub fn validate(&self) -> (r: Result<(), ConfigError>)
        ensures
            r is Ok <==> self.roots > 0 && self.queue_depth > 0,
            r matches Err(e) ==> self.problem() == Some(e),
    {
        if self.roots == 0 {
            Err(ConfigError::NoRoots)
        } else if self.queue_depth == 0 {
            Err(ConfigError::ZeroQueueDepth)
        } else {
            Ok(())
        }
    }

    /// The options that the engine is given.
    pub fn warming_options(&self) -> (options: WarmingOptions)
        ensures
            options.use_io_uring == self.io_uring,
            options.use_libaio == self.libaio,
            options.use_direct_io == self.direct_io,
            options.sparse_large_files == self.sparse_large_files,
    {
        WarmingOptions {
            use_io_uring: self.io_uring,
            use_libaio: self.libaio,
            use_direct_io: self.direct_io,
            sparse_large_files: self.sparse_large_files,
        }
    }

    /// How the walk is set up on a machine with `detected` processors.
    /// Ignore files are honoured and hidden entries left out only where the
    /// configuration asks for it.
    pub open spec fn walk(self, detected: usize) -> WalkSettings {
        WalkSettings {
            threads: threads_for(self.threads, detected),
            follow_links: self.follow_symlinks,
            max_depth: self.max_depth,
            apply_ignore_rules: self.respect_gitignore,
            skip_hidden: self.ignore_hidden,
        }
    }

    pub fn walk_settings_for(&self, detected: usize) -> (settings: WalkSettings)
        ensures
            settings == self.walk(detected),
    {
        WalkSettings {
            threads: choose_threads(self.threads, detected),
            follow_links: self.follow_symlinks,
            max_depth: self.max_depth,
            apply_ignore_rules: self.respect_gitignore,
            skip_hidden: self.ignore_hidden,
        }
    }

    /// How the walk is set up on this machine. The number of processors is
    /// looked up only where no number of threads was asked for.
    pub fn walk_settings(&self) -> (settings: WalkSettings)
        ensures
            settings == self.walk(settings.threads),
            self.threads is None ==> settings.threads >= 1,
    {
        let threads: usize = discovery_threads(self.threads);
        WalkSettings {
            threads,
            follow_links: self.follow_symlinks,
            max_depth: self.max_depth,
            apply_ignore_rules: self.respect_gitignore,
            skip_hidden: self.ignore_hidden,
        }
    }
}

} // verus!
