//! Manages rollup repository cloning and binary builds.
use vstd::prelude::*;

use crate::build_cache::{self, cached_binary, obtain, obtained, repo_dir, repo_ensured};
use crate::journal::{outcome, HostReply, Journal, Outcome, Stop};
use crate::process::{no_args, push_arg};

pub use crate::artifact_builder::DEFAULT_REPO_URL;
pub use crate::build_cache::BuilderError;

verus! {

/// Manages the rollup repository and binary builds.
#[derive(Debug)]
pub struct RollupBuilder {
    /// Root directory for all cached data.
    pub cache_dir: String,
    /// Repository URL.
    pub repo_url: String,
}

/// One of the binaries that a test case needs.
#[verifier::ext_equal]
pub struct BinaryView {
    /// Its name in the cache.
    pub name: Seq<char>,
    /// What makes cargo build it.
    pub args: Seq<Seq<char>>,
    /// Its name in cargo's target directory.
    pub bin: Seq<char>,
}

/// The rollup.
pub open spec fn rollup_build() -> BinaryView {
    BinaryView {
        name: "sov-rollup-starter"@,
        args: seq![
            "build"@,
            "--release"@,
            "--no-default-features"@,
            "--features"@,
            "acceptance-testing,mock_da_external,mock_zkvm"@,
        ],
        bin: "rollup"@,
    }
}

/// The soak-test workers.
pub open spec fn soak_build() -> BinaryView {
    BinaryView {
        name: "rollup-starter-soak-test"@,
        args: seq!["build"@, "--release"@, "-p"@, "rollup-starter-soak-test"@],
        bin: "rollup-starter-soak-test"@,
    }
}

/// The mock-da-server.
pub open spec fn mock_da_build() -> BinaryView {
    BinaryView {
        name: "mock-da-server"@,
        args: seq![
            "build"@,
            "--release"@,
            "--bin"@,
            "mock-da-server"@,
            "--no-default-features"@,
            "--features=mock_da_external,mock_zkvm"@,
        ],
        bin: "mock-da-server"@,
    }
}

impl RollupBuilder {
    /// A binary for a commit: from the cache, or built.
    pub open spec fn binary(
        self,
        commit: Seq<char>,
        build: BinaryView,
        replies: Seq<HostReply>,
        at: nat,
    ) -> Outcome<Seq<char>, BuilderError<Seq<char>>> {
        obtained(
            self.cache_dir@,
            self.repo_url@,
            commit,
            build.name,
            build.args,
            build.bin,
            replies,
            at,
        )
    }

    /// Create a new builder with the default repository URL.
    pub fn new(cache_dir: String) -> (b: Self)
        ensures
            b.cache_dir == cache_dir,
            b.repo_url@ == DEFAULT_REPO_URL@,
    {
        RollupBuilder { cache_dir, repo_url: DEFAULT_REPO_URL.to_string() }
    }

    /// Create a new builder with a custom repository URL.
    pub fn with_repo_url(cache_dir: String, repo_url: String) -> (b: Self)
        ensures
            b == (RollupBuilder { cache_dir, repo_url }),
    {
        RollupBuilder { cache_dir, repo_url }
    }

    /// Where the repository is cloned to.
    pub fn repo_path(&self) -> (p: String)
        ensures
            p@ == repo_dir(self.cache_dir@),
    {
        build_cache::repo_path(&self.cache_dir)
    }

    /// Where the rollup of a commit is cached.
    pub fn binary_cache_path(&self, commit: &str) -> (p: String)
        ensures
            p@ == cached_binary(self.cache_dir@, commit@, rollup_build().name),
    {
        build_cache::binary_cache_path(&self.cache_dir, commit, "sov-rollup-starter")
    }

    /// Where the soak-test binary of a commit is cached.
    pub fn soak_binary_cache_path(&self, commit: &str) -> (p: String)
        ensures
            p@ == cached_binary(self.cache_dir@, commit@, soak_build().name),
    {
        build_cache::binary_cache_path(&self.cache_dir, commit, "rollup-starter-soak-test")
    }

    /// Where the mock-da-server of a commit is cached.
    pub fn mock_da_binary_cache_path(&self, commit: &str) -> (p: String)
        ensures
            p@ == cached_binary(self.cache_dir@, commit@, mock_da_build().name),
    {
        build_cache::binary_cache_path(&self.cache_dir, commit, "mock-da-server")
    }

    /// Ensure the repository is cloned and up to date.
    pub fn ensure_repo(&self, journal: &mut Journal) -> (r: Result<(), Stop<BuilderError>>)
        ensures
            outcome(r, *final(journal)) == repo_ensured(
                self.cache_dir@,
                self.repo_url@,
                old(journal).replies@,
                old(journal).next as nat,
            ),
            final(journal).replies == old(journal).replies,
    {
        build_cache::ensure_repo(&self.cache_dir, &self.repo_url, journal)
    }

    /// Get the binary for a specific commit, building if necessary.
    pub fn get_binary(&self, commit: &str, journal: &mut Journal) -> (r: Result<
        String,
        Stop<BuilderError>,
    >)
        ensures
            outcome(r, *final(journal)) == self.binary(
                commit@,
                rollup_build(),
                old(journal).replies@,
                old(journal).next as nat,
            ),
            final(journal).replies == old(journal).replies,
    {
        let mut args = no_args();
        push_arg(&mut args, "build");
        push_arg(&mut args, "--release");
        push_arg(&mut args, "--no-default-features");
        push_arg(&mut args, "--features");
        push_arg(&mut args, "acceptance-testing,mock_da_external,mock_zkvm");
        assert(args.deep_view() =~= rollup_build().args);
        obtain(
            &self.cache_dir,
            &self.repo_url,
            commit,
            "sov-rollup-starter",
            args,
            "rollup",
            journal,
        )
    }

    /// Get the soak-test binary for a specific commit, building if necessary.
    pub fn get_soak_binary(&self, commit: &str, journal: &mut Journal) -> (r: Result<
        String,
        Stop<BuilderError>,
    >)
        ensures
            outcome(r, *final(journal)) == self.binary(
                commit@,
                soak_build(),
                old(journal).replies@,
                old(journal).next as nat,
            ),
            final(journal).replies == old(journal).replies,
    {
        let mut args = no_args();
        push_arg(&mut args, "build");
        push_arg(&mut args, "--release");
        push_arg(&mut args, "-p");
        push_arg(&mut args, "rollup-starter-soak-test");
        assert(args.deep_view() =~= soak_build().args);
        obtain(
            &self.cache_dir,
            &self.repo_url,
            commit,
            "rollup-starter-soak-test",
            args,
            "rollup-starter-soak-test",
            journal,
        )
    }

    /// Get the mock-da-server binary for a specific commit, building if necessary.
    ///
    /// The mock-da-server is built with external DA features:
    /// `--no-default-features --features=mock_da_external,mock_zkvm`
    pub fn get_mock_da_binary(&self, commit: &str, journal: &mut Journal) -> (r: Result<
        String,
        Stop<BuilderError>,
    >)
        ensures
            outcome(r, *final(journal)) == self.binary(
                commit@,
                mock_da_build(),
                old(journal).replies@,
                old(journal).next as nat,
            ),
            final(journal).replies == old(journal).replies,
    {
        let mut args = no_args();
        push_arg(&mut args, "build");
        push_arg(&mut args, "--release");
        push_arg(&mut args, "--bin");
        push_arg(&mut args, "mock-da-server");
        push_arg(&mut args, "--no-default-features");
        push_arg(&mut args, "--features=mock_da_external,mock_zkvm");
        assert(args.deep_view() =~= mock_da_build().args);
        obtain(
            &self.cache_dir,
            &self.repo_url,
            commit,
            "mock-da-server",
            args,
            "mock-da-server",
            journal,
        )
    }
}

} // verus!
