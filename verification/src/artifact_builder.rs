//! Builds and caches rollup-related artifacts across multiple commits.
//!
//! - [`RollupBuilder`] builds single binaries on demand.
//! - [`prepare_artifacts`] prepares all binaries of a multi-version spec.
use vstd::prelude::*;

use crate::build_cache::{self, cached_binary, obtain, obtained, repo_dir, repo_ensured};
use crate::journal::{outcome, HostReply, Journal, Outcome, Stop};
use crate::process::{copy_texts, no_args, push_all, push_arg};
use crate::text::{join_text, joined};

pub use crate::build_cache::BuilderError;

verus! {

/// The default repository URL for the Sovereign SDK rollup starter.
pub const DEFAULT_REPO_URL: &'static str = "https://github.com/Sovereign-Labs/rollup-starter";

/// Build configuration for a single cargo binary target.
#[derive(Debug)]
pub struct BuildTarget {
    /// Optional package to build (`cargo build -p <package>`).
    pub package: Option<String>,
    /// Binary name (`cargo build --bin <bin>` and `target/release/<bin>`).
    pub bin: String,
    /// Optional cache file name (defaults to `bin` when omitted).
    pub cache_name: Option<String>,
    /// Whether to pass `--no-default-features`.
    pub no_default_features: bool,
    /// Optional cargo features.
    pub features: Vec<String>,
    /// Additional cargo args appended at the end.
    pub extra_args: Vec<String>,
}

/// The text of a build target.
#[verifier::ext_equal]
pub struct TargetView {
    pub package: Option<Seq<char>>,
    pub bin: Seq<char>,
    pub cache_name: Option<Seq<char>>,
    pub no_default_features: bool,
    pub features: Seq<Seq<char>>,
    pub extra_args: Seq<Seq<char>>,
}

impl DeepView for BuildTarget {
    type V = TargetView;

    open spec fn deep_view(&self) -> TargetView {
        TargetView {
            package: self.package.deep_view(),
            bin: self.bin@,
            cache_name: self.cache_name.deep_view(),
            no_default_features: self.no_default_features,
            features: self.features.deep_view(),
            extra_args: self.extra_args.deep_view(),
        }
    }
}

impl TargetView {
    /// The name of the target's file in the cache.
    pub open spec fn file_name(self) -> Seq<char> {
        match self.cache_name {
            Some(name) => name,
            None => self.bin,
        }
    }

    /// The arguments that make cargo build the target, where `package_flag` names the package.
    pub open spec fn cargo_args(self, package_flag: Seq<char>) -> Seq<Seq<char>> {
        seq!["build"@, "--release"@] + (match self.package {
            Some(package) => seq![package_flag, package],
            None => seq![],
        }) + seq!["--bin"@, self.bin] + (if self.no_default_features {
            seq!["--no-default-features"@]
        } else {
            seq![]
        }) + (if self.features.len() > 0 {
            seq!["--features"@, joined(self.features, ","@)]
        } else {
            seq![]
        }) + self.extra_args
    }
}

impl Clone for BuildTarget {
    fn clone(&self) -> (r: Self)
        ensures
            r.deep_view() == self.deep_view(),
    {
        BuildTarget {
            package: self.package.clone(),
            bin: self.bin.clone(),
            cache_name: self.cache_name.clone(),
            no_default_features: self.no_default_features,
            features: copy_texts(&self.features),
            extra_args: copy_texts(&self.extra_args),
        }
    }
}

impl BuildTarget {
    /// The name of the target's file in the cache.
    pub fn cache_name(&self) -> (name: &str)
        ensures
            name@ == self.deep_view().file_name(),
    {
        match &self.cache_name {
            Some(name) => name.as_str(),
            None => self.bin.as_str(),
        }
    }

    /// The arguments that make cargo build the target.
    pub fn cargo_args(&self, package_flag: &str) -> (args: Vec<String>)
        ensures
            args.deep_view() == self.deep_view().cargo_args(package_flag@),
    {
        let ghost view = self.deep_view();
        let mut args = no_args();
        push_arg(&mut args, "build");
        push_arg(&mut args, "--release");
        let ghost start = seq!["build"@, "--release"@];
        assert(args.deep_view() =~= start);
        let ghost package_args = match view.package {
            Some(package) => seq![package_flag@, package],
            None => seq![],
        };
        if let Some(package) = &self.package {
            push_arg(&mut args, package_flag);
            push_arg(&mut args, package.as_str());
        }
        assert(args.deep_view() =~= start + package_args);
        push_arg(&mut args, "--bin");
        push_arg(&mut args, self.bin.as_str());
        let ghost named = start + package_args + seq!["--bin"@, view.bin];
        assert(args.deep_view() =~= named);
        let ghost default_args = if view.no_default_features {
            seq!["--no-default-features"@]
        } else {
            seq![]
        };
        if self.no_default_features {
            push_arg(&mut args, "--no-default-features");
        }
        assert(args.deep_view() =~= named + default_args);
        let ghost feature_args = if view.features.len() > 0 {
            seq!["--features"@, joined(view.features, ","@)]
        } else {
            seq![]
        };
        if self.features.len() > 0 {
            push_arg(&mut args, "--features");
            let features = join_text(&self.features, ",");
            push_arg(&mut args, features.as_str());
        }
        assert(args.deep_view() =~= named + default_args + feature_args);
        push_all(&mut args, &self.extra_args);
        args
    }
}

/// The rollup of the starter repository, built for the mock DA layer.
pub open spec fn rollup_target() -> TargetView {
    TargetView {
        package: None,
        bin: "rollup"@,
        cache_name: Some("sov-rollup-starter"@),
        no_default_features: true,
        features: seq!["acceptance-testing"@, "mock_da_external"@, "mock_zkvm"@],
        extra_args: seq![],
    }
}

/// The rollup of the starter repository, built for the mock DA layer.
pub fn default_rollup_target() -> (t: BuildTarget)
    ensures
        t.deep_view() == rollup_target(),
{
    let mut features = no_args();
    push_arg(&mut features, "acceptance-testing");
    push_arg(&mut features, "mock_da_external");
    push_arg(&mut features, "mock_zkvm");
    BuildTarget {
        package: None,
        bin: "rollup".to_string(),
        cache_name: Some("sov-rollup-starter".to_string()),
        no_default_features: true,
        features,
        extra_args: no_args(),
    }
}

/// The soak-test workers of the starter repository.
pub open spec fn soak_target() -> TargetView {
    TargetView {
        package: Some("rollup-starter-soak-test"@),
        bin: "rollup-starter-soak-test"@,
        cache_name: Some("rollup-starter-soak-test"@),
        no_default_features: false,
        features: seq![],
        extra_args: seq![],
    }
}

/// The soak-test workers of the starter repository.
pub fn default_soak_target() -> (t: BuildTarget)
    ensures
        t.deep_view() == soak_target(),
{
    BuildTarget {
        package: Some("rollup-starter-soak-test".to_string()),
        bin: "rollup-starter-soak-test".to_string(),
        cache_name: Some("rollup-starter-soak-test".to_string()),
        no_default_features: false,
        features: no_args(),
        extra_args: no_args(),
    }
}

/// The mock DA server of the starter repository.
pub open spec fn mock_da_target() -> TargetView {
    TargetView {
        package: None,
        bin: "mock-da-server"@,
        cache_name: Some("mock-da-server"@),
        no_default_features: true,
        features: seq!["mock_da_external"@, "mock_zkvm"@],
        extra_args: seq![],
    }
}

/// The mock DA server of the starter repository.
pub fn default_mock_da_target() -> (t: BuildTarget)
    ensures
        t.deep_view() == mock_da_target(),
{
    let mut features = no_args();
    push_arg(&mut features, "mock_da_external");
    push_arg(&mut features, "mock_zkvm");
    BuildTarget {
        package: None,
        bin: "mock-da-server".to_string(),
        cache_name: Some("mock-da-server".to_string()),
        no_default_features: true,
        features,
        extra_args: no_args(),
    }
}

/// Build targets used for artifact preparation.
#[derive(Debug)]
pub struct BuildTargets {
    /// Rollup binary build config.
    pub rollup: BuildTarget,
    /// Soak binary build config.
    pub soak: Option<BuildTarget>,
    /// Mock DA binary build config.
    pub mock_da: Option<BuildTarget>,
}

/// The text of a set of build targets.
#[verifier::ext_equal]
pub struct TargetsView {
    pub rollup: TargetView,
    pub soak: Option<TargetView>,
    pub mock_da: Option<TargetView>,
}

impl DeepView for BuildTargets {
    type V = TargetsView;

    open spec fn deep_view(&self) -> TargetsView {
        TargetsView {
            rollup: self.rollup.deep_view(),
            soak: self.soak.deep_view(),
            mock_da: self.mock_da.deep_view(),
        }
    }
}

fn clone_target(target: &Option<BuildTarget>) -> (r: Option<BuildTarget>)
    ensures
        r.deep_view() == target.deep_view(),
{
    match target {
        Some(t) => Some(t.clone()),
        None => None,
    }
}

impl Clone for BuildTargets {
    fn clone(&self) -> (r: Self)
        ensures
            r.deep_view() == self.deep_view(),
    {
        BuildTargets {
            rollup: self.rollup.clone(),
            soak: clone_target(&self.soak),
            mock_da: clone_target(&self.mock_da),
        }
    }
}

impl BuildTargets {
    /// Target set used by the upgrade simulator: rollup, soak and mock-da targets.
    pub fn upgrade_simulator_defaults() -> (t: Self)
        ensures
            t.deep_view() == (TargetsView {
                rollup: rollup_target(),
                soak: Some(soak_target()),
                mock_da: Some(mock_da_target()),
            }),
    {
        BuildTargets {
            rollup: default_rollup_target(),
            soak: Some(default_soak_target()),
            mock_da: Some(default_mock_da_target()),
        }
    }
}

/// The rollup target alone.
pub open spec fn default_targets() -> TargetsView {
    TargetsView { rollup: rollup_target(), soak: None, mock_da: None }
}

impl Default for BuildTargets {
    /// The rollup target alone.
    fn default() -> (t: Self)
        ensures
            t.deep_view() == default_targets(),
    {
        BuildTargets { rollup: default_rollup_target(), soak: None, mock_da: None }
    }
}

/// High-level spec for preparing multiple versions.
#[derive(Debug)]
pub struct BuildSpec {
    /// Optional repository URL override.
    pub repo_url: Option<String>,
    /// Build targets for artifact preparation.
    pub targets: BuildTargets,
    /// Versions to prepare.
    pub versions: Vec<VersionBuildSpec>,
}

/// Build spec for one version.
#[derive(Debug)]
pub struct VersionBuildSpec {
    /// Commit hash.
    pub commit: String,
    /// Whether to build soak binary for this version.
    pub build_soak: bool,
}

/// Runtime request knobs for [`prepare_artifacts`].
#[derive(Debug)]
pub struct BuildRequest {
    /// Root directory for all cached data.
    pub cache_dir: String,
    /// Force building soak binaries for all versions.
    pub build_soak_binaries: bool,
    /// Build mock-da binary for the first version commit.
    pub build_mock_da_binary: bool,
}

/// Prepared artifacts for one version. In contracts a text is `Seq<char>`.
#[derive(Debug)]
pub struct PreparedVersionArtifacts<S = String> {
    pub commit: S,
    pub rollup_binary: S,
    pub soak_binary: Option<S>,
}

impl DeepView for PreparedVersionArtifacts {
    type V = PreparedVersionArtifacts<Seq<char>>;

    open spec fn deep_view(&self) -> PreparedVersionArtifacts<Seq<char>> {
        PreparedVersionArtifacts {
            commit: self.commit@,
            rollup_binary: self.rollup_binary@,
            soak_binary: self.soak_binary.deep_view(),
        }
    }
}

/// All prepared artifacts for the request.
#[derive(Debug)]
pub struct PreparedArtifacts {
    pub versions: Vec<PreparedVersionArtifacts>,
    pub mock_da_binary: Option<String>,
}

impl DeepView for PreparedArtifacts {
    type V = (Seq<PreparedVersionArtifacts<Seq<char>>>, Option<Seq<char>>);

    open spec fn deep_view(&self) -> Self::V {
        (self.versions.deep_view(), self.mock_da_binary.deep_view())
    }
}

/// Manages the rollup repository and binary builds.
#[derive(Debug)]
pub struct RollupBuilder {
    pub cache_dir: String,
    pub repo_url: String,
    pub targets: BuildTargets,
}

/// The text of a builder.
#[verifier::ext_equal]
pub struct BuilderView {
    pub cache_dir: Seq<char>,
    pub repo_url: Seq<char>,
    pub targets: TargetsView,
}

impl View for RollupBuilder {
    type V = BuilderView;

    open spec fn view(&self) -> BuilderView {
        BuilderView {
            cache_dir: self.cache_dir@,
            repo_url: self.repo_url@,
            targets: self.targets.deep_view(),
        }
    }
}

impl BuilderView {
    /// A target's binary for a commit.
    pub open spec fn target_binary(
        self,
        commit: Seq<char>,
        target: TargetView,
        replies: Seq<HostReply>,
        at: nat,
    ) -> Outcome<Seq<char>, BuilderError<Seq<char>>> {
        obtained(
            self.cache_dir,
            self.repo_url,
            commit,
            target.file_name(),
            target.cargo_args("-p"@),
            target.bin,
            replies,
            at,
        )
    }

    /// The binary of a target that there may not be.
    pub open spec fn optional_binary(
        self,
        commit: Seq<char>,
        target: Option<TargetView>,
        name: Seq<char>,
        replies: Seq<HostReply>,
        at: nat,
    ) -> Outcome<Seq<char>, BuilderError<Seq<char>>> {
        match target {
            None => Outcome::Fails(BuilderError::TargetDisabled(name), at),
            Some(t) => self.target_binary(commit, t, replies, at),
        }
    }

    /// The artifacts of one version.
    pub open spec fn version_artifacts(
        self,
        commit: Seq<char>,
        with_soak: bool,
        replies: Seq<HostReply>,
        at: nat,
    ) -> Outcome<PreparedVersionArtifacts<Seq<char>>, BuilderError<Seq<char>>> {
        match self.target_binary(commit, self.targets.rollup, replies, at) {
            Outcome::Asks(call, stop) => Outcome::Asks(call, stop),
            Outcome::Fails(e, next) => Outcome::Fails(e, next),
            Outcome::Gives(rollup_binary, next) => if with_soak {
                match self.optional_binary(commit, self.targets.soak, "soak"@, replies, next) {
                    Outcome::Asks(call, stop) => Outcome::Asks(call, stop),
                    Outcome::Fails(e, next) => Outcome::Fails(e, next),
                    Outcome::Gives(soak, end) => Outcome::Gives(
                        PreparedVersionArtifacts { commit, rollup_binary, soak_binary: Some(soak) },
                        end,
                    ),
                }
            } else {
                Outcome::Gives(
                    PreparedVersionArtifacts { commit, rollup_binary, soak_binary: None },
                    next,
                )
            },
        }
    }

    /// The artifacts of one version after the other, where those before them are `done`.
    pub open spec fn all_artifacts(
        self,
        versions: Seq<VersionBuildSpec>,
        soak_for_all: bool,
        done: Seq<PreparedVersionArtifacts<Seq<char>>>,
        replies: Seq<HostReply>,
        at: nat,
    ) -> Outcome<Seq<PreparedVersionArtifacts<Seq<char>>>, BuilderError<Seq<char>>>
        decreases versions.len(),
    {
        if versions.len() == 0 {
            Outcome::Gives(done, at)
        } else {
            match self.version_artifacts(
                versions[0].commit@,
                soak_for_all || versions[0].build_soak,
                replies,
                at,
            ) {
                Outcome::Asks(call, stop) => Outcome::Asks(call, stop),
                Outcome::Fails(e, next) => Outcome::Fails(e, next),
                Outcome::Gives(artifacts, next) => self.all_artifacts(
                    versions.skip(1),
                    soak_for_all,
                    done.push(artifacts),
                    replies,
                    next,
                ),
            }
        }
    }
}

impl RollupBuilder {
    /// Create a new builder with the default repository URL and rollup-only targets.
    pub fn new(cache_dir: String) -> (b: Self)
        ensures
            b@ == (BuilderView {
                cache_dir: cache_dir@,
                repo_url: DEFAULT_REPO_URL@,
                targets: default_targets(),
            }),
    {
        RollupBuilder {
            cache_dir,
            repo_url: DEFAULT_REPO_URL.to_string(),
            targets: BuildTargets::default(),
        }
    }

    /// Create a new builder with a custom repository URL and rollup-only targets.
    pub fn with_repo_url(cache_dir: String, repo_url: String) -> (b: Self)
        ensures
            b@ == (BuilderView {
                cache_dir: cache_dir@,
                repo_url: repo_url@,
                targets: default_targets(),
            }),
    {
        RollupBuilder { cache_dir, repo_url, targets: BuildTargets::default() }
    }

    /// Create a new builder with custom repository URL and explicit targets.
    pub fn with_targets(cache_dir: String, repo_url: String, targets: BuildTargets) -> (b: Self)
        ensures
            b == (RollupBuilder { cache_dir, repo_url, targets }),
    {
        RollupBuilder { cache_dir, repo_url, targets }
    }

    /// Where the repository is cloned to.
    pub fn repo_path(&self) -> (p: String)
        ensures
            p@ == repo_dir(self@.cache_dir),
    {
        build_cache::repo_path(&self.cache_dir)
    }

    /// Where a binary that was built from a commit is kept.
    pub fn binary_cache_path(&self, commit: &str, cache_name: &str) -> (p: String)
        ensures
            p@ == cached_binary(self@.cache_dir, commit@, cache_name@),
    {
        build_cache::binary_cache_path(&self.cache_dir, commit, cache_name)
    }

    /// Ensure the repository is cloned and up to date.
    pub fn ensure_repo(&self, journal: &mut Journal) -> (r: Result<(), Stop<BuilderError>>)
        ensures
            outcome(r, *final(journal)) == repo_ensured(
                self@.cache_dir,
                self@.repo_url,
                old(journal).replies@,
                old(journal).next as nat,
            ),
            final(journal).replies == old(journal).replies,
    {
        build_cache::ensure_repo(&self.cache_dir, &self.repo_url, journal)
    }

    /// Get a target's binary for a specific commit.
    fn get_target_binary(
        &self,
        commit: &str,
        target: &BuildTarget,
        journal: &mut Journal,
    ) -> (r: Result<String, Stop<BuilderError>>)
        ensures
            outcome(r, *final(journal)) == self@.target_binary(
                commit@,
                target.deep_view(),
                old(journal).replies@,
                old(journal).next as nat,
            ),
            final(journal).replies == old(journal).replies,
    {
        obtain(
            &self.cache_dir,
            &self.repo_url,
            commit,
            target.cache_name(),
            target.cargo_args("-p"),
            target.bin.as_str(),
            journal,
        )
    }

    /// Get the rollup binary for a specific commit.
    pub fn get_binary(&self, commit: &str, journal: &mut Journal) -> (r: Result<
        String,
        Stop<BuilderError>,
    >)
        ensures
            outcome(r, *final(journal)) == self@.target_binary(
                commit@,
                self@.targets.rollup,
                old(journal).replies@,
                old(journal).next as nat,
            ),
            final(journal).replies == old(journal).replies,
    {
        self.get_target_binary(commit, &self.targets.rollup, journal)
    }

    /// Get the soak-test binary for a specific commit.
    pub fn get_soak_binary(&self, commit: &str, journal: &mut Journal) -> (r: Result<
        String,
        Stop<BuilderError>,
    >)
        ensures
            outcome(r, *final(journal)) == self@.optional_binary(
                commit@,
                self@.targets.soak,
                "soak"@,
                old(journal).replies@,
                old(journal).next as nat,
            ),
            final(journal).replies == old(journal).replies,
    {
        match &self.targets.soak {
            Some(target) => self.get_target_binary(commit, target, journal),
            None => Err(Stop::Fail(BuilderError::TargetDisabled("soak".to_string()))),
        }
    }

    /// Get the mock-da-server binary for a specific commit.
    pub fn get_mock_da_binary(&self, commit: &str, journal: &mut Journal) -> (r: Result<
        String,
        Stop<BuilderError>,
    >)
        ensures
            outcome(r, *final(journal)) == self@.optional_binary(
                commit@,
                self@.targets.mock_da,
                "mock-da-server"@,
                old(journal).replies@,
                old(journal).next as nat,
            ),
            final(journal).replies == old(journal).replies,
    {
        match &self.targets.mock_da {
            Some(target) => self.get_target_binary(commit, target, journal),
            None => Err(Stop::Fail(BuilderError::TargetDisabled("mock-da-server".to_string()))),
        }
    }
}

/// The builder that a spec and a request call for.
pub open spec fn requested_builder(spec: BuildSpec, request: BuildRequest) -> BuilderView {
    BuilderView {
        cache_dir: request.cache_dir@,
        repo_url: match spec.repo_url {
            Some(url) => url@,
            None => DEFAULT_REPO_URL@,
        },
        targets: spec.targets.deep_view(),
    }
}

/// The artifacts of all versions in the spec, and the mock-da binary of the first one.
pub open spec fn artifacts_prepared(
    spec: BuildSpec,
    request: BuildRequest,
    replies: Seq<HostReply>,
    at: nat,
) -> Outcome<
    (Seq<PreparedVersionArtifacts<Seq<char>>>, Option<Seq<char>>),
    BuilderError<Seq<char>>,
> {
    let b = requested_builder(spec, request);
    match b.all_artifacts(spec.versions@, request.build_soak_binaries, seq![], replies, at) {
        Outcome::Asks(call, stop) => Outcome::Asks(call, stop),
        Outcome::Fails(e, next) => Outcome::Fails(e, next),
        Outcome::Gives(versions, next) => if request.build_mock_da_binary && spec.versions@.len()
            > 0 {
            match b.optional_binary(
                spec.versions@[0].commit@,
                b.targets.mock_da,
                "mock-da-server"@,
                replies,
                next,
            ) {
                Outcome::Asks(call, stop) => Outcome::Asks(call, stop),
                Outcome::Fails(e, next) => Outcome::Fails(e, next),
                Outcome::Gives(binary, end) => Outcome::Gives((versions, Some(binary)), end),
            }
        } else {
            Outcome::Gives((versions, None), next)
        },
    }
}

/// Prepare artifacts for all versions in the spec.
pub fn prepare_artifacts(
    spec: &BuildSpec,
    request: &BuildRequest,
    journal: &mut Journal,
) -> (r: Result<PreparedArtifacts, Stop<BuilderError>>)
    ensures
        outcome(r, *final(journal)) == artifacts_prepared(
            *spec,
            *request,
            old(journal).replies@,
            old(journal).next as nat,
        ),
        final(journal).replies == old(journal).replies,
{
    let repo_url = match &spec.repo_url {
        Some(url) => url.clone(),
        None => DEFAULT_REPO_URL.to_string(),
    };
    let builder = RollupBuilder::with_targets(
        request.cache_dir.clone(),
        repo_url,
        spec.targets.clone(),
    );
    let ghost b = requested_builder(*spec, *request);
    assert(builder@ == b);

    let ghost soak_for_all = request.build_soak_binaries;
    let ghost replies = journal.replies@;
    let ghost whole = b.all_artifacts(
        spec.versions@,
        soak_for_all,
        seq![],
        replies,
        journal.next as nat,
    );
    let mut versions: Vec<PreparedVersionArtifacts> = Vec::new();
    let mut i: usize = 0;
    assert(spec.versions@.skip(0) =~= spec.versions@);
    assert(versions.deep_view() =~= seq![]);
    while i < spec.versions.len()
        invariant
            i <= spec.versions.len(),
            builder@ == b,
            b == requested_builder(*spec, *request),
            soak_for_all == request.build_soak_binaries,
            replies == journal.replies@,
            journal.replies == old(journal).replies,
            whole == b.all_artifacts(
                spec.versions@,
                soak_for_all,
                seq![],
                replies,
                old(journal).next as nat,
            ),
            whole == b.all_artifacts(
                spec.versions@.skip(i as int),
                soak_for_all,
                versions.deep_view(),
                replies,
                journal.next as nat,
            ),
        decreases spec.versions.len() - i,
    {
        let version = &spec.versions[i];
        let ghost done = versions.deep_view();
        assert(spec.versions@.skip(i as int)[0] == version);
        assert(spec.versions@.skip(i as int).skip(1) =~= spec.versions@.skip(i + 1));
        let rollup_binary = builder.get_binary(version.commit.as_str(), journal)?;
        let soak_binary = if request.build_soak_binaries || version.build_soak {
            Some(builder.get_soak_binary(version.commit.as_str(), journal)?)
        } else {
            None
        };
        let artifacts = PreparedVersionArtifacts {
            commit: version.commit.clone(),
            rollup_binary,
            soak_binary,
        };
        versions.push(artifacts);
        assert(versions.deep_view() =~= done.push(artifacts.deep_view()));
        i = i + 1;
    }

    let mock_da_binary = if request.build_mock_da_binary && spec.versions.len() > 0 {
        Some(builder.get_mock_da_binary(spec.versions[0].commit.as_str(), journal)?)
    } else {
        None
    };
    Ok(PreparedArtifacts { versions, mock_da_binary })
}

/// Where the artifacts of a version are, once they have been prepared.
pub open spec fn artifact_paths(b: BuilderView, version: VersionBuildSpec, soak_for_all: bool)
    -> PreparedVersionArtifacts<Seq<char>> {
    PreparedVersionArtifacts {
        commit: version.commit@,
        rollup_binary: cached_binary(
            b.cache_dir,
            version.commit@,
            b.targets.rollup.file_name(),
        ),
        soak_binary: if soak_for_all || version.build_soak {
            Some(cached_binary(b.cache_dir, version.commit@, b.targets.soak->0.file_name()))
        } else {
            None
        },
    }
}

proof fn target_binary_path(
    b: BuilderView,
    commit: Seq<char>,
    target: TargetView,
    replies: Seq<HostReply>,
    at: nat,
)
    ensures
        b.target_binary(commit, target, replies, at) matches Outcome::Gives(path, _) ==> path
            == cached_binary(b.cache_dir, commit, target.file_name()),
{
    build_cache::obtained_from_cache(
        b.cache_dir,
        b.repo_url,
        commit,
        target.file_name(),
        target.cargo_args("-p"@),
        target.bin,
        replies,
        at,
    );
}

proof fn version_artifact_paths(
    b: BuilderView,
    version: VersionBuildSpec,
    soak_for_all: bool,
    replies: Seq<HostReply>,
    at: nat,
)
    ensures
        b.version_artifacts(
            version.commit@,
            soak_for_all || version.build_soak,
            replies,
            at,
        ) matches Outcome::Gives(artifacts, _) ==> artifacts == artifact_paths(
            b,
            version,
            soak_for_all,
        ),
{
    let commit = version.commit@;
    target_binary_path(b, commit, b.targets.rollup, replies, at);
    match b.target_binary(commit, b.targets.rollup, replies, at) {
        Outcome::Gives(_, next) => {
            target_binary_path(b, commit, b.targets.soak->0, replies, next);
        },
        _ => {},
    }
}

/// The artifacts of a list of versions come in its order, each at its fixed path.
pub proof fn all_artifact_paths(
    b: BuilderView,
    versions: Seq<VersionBuildSpec>,
    soak_for_all: bool,
    done: Seq<PreparedVersionArtifacts<Seq<char>>>,
    replies: Seq<HostReply>,
    at: nat,
)
    ensures
        b.all_artifacts(versions, soak_for_all, done, replies, at) matches Outcome::Gives(all, _)
            ==> all == done + versions.map_values(
            |v: VersionBuildSpec| artifact_paths(b, v, soak_for_all),
        ),
    decreases versions.len(),
{
    let path = |v: VersionBuildSpec| artifact_paths(b, v, soak_for_all);
    if versions.len() == 0 {
        assert(done =~= done + versions.map_values(path));
    } else {
        version_artifact_paths(b, versions[0], soak_for_all, replies, at);
        match b.version_artifacts(
            versions[0].commit@,
            soak_for_all || versions[0].build_soak,
            replies,
            at,
        ) {
            Outcome::Gives(artifacts, next) => {
                assert(artifacts == path(versions[0]));
                all_artifact_paths(
                    b,
                    versions.skip(1),
                    soak_for_all,
                    done.push(artifacts),
                    replies,
                    next,
                );
                assert(done.push(artifacts) + versions.skip(1).map_values(path) =~= done
                    + versions.map_values(path));
            },
            _ => {},
        }
    }
}

pub(crate) proof fn target_binary_on_prefix(
    b: BuilderView,
    commit: Seq<char>,
    target: TargetView,
    replies: Seq<HostReply>,
    at: nat,
    known: nat,
)
    requires
        known <= replies.len(),
    ensures
        b.target_binary(commit, target, replies, at) matches Outcome::Gives(_, next) ==> {
            &&& at < next
            &&& next <= known ==> b.target_binary(commit, target, replies.take(known as int), at)
                == b.target_binary(commit, target, replies, at)
        },
{
    let name = target.file_name();
    let args = target.cargo_args("-p"@);
    build_cache::obtained_from_cache(
        b.cache_dir,
        b.repo_url,
        commit,
        name,
        args,
        target.bin,
        replies,
        at,
    );
    match b.target_binary(commit, target, replies, at) {
        Outcome::Gives(_, next) if next <= known => {
            build_cache::obtained_from_the_replies_read(
                b.cache_dir,
                b.repo_url,
                commit,
                name,
                args,
                target.bin,
                replies,
                at,
                known,
            );
        },
        _ => {},
    }
}

pub(crate) proof fn version_artifacts_on_prefix(
    b: BuilderView,
    commit: Seq<char>,
    with_soak: bool,
    replies: Seq<HostReply>,
    at: nat,
    known: nat,
)
    requires
        known <= replies.len(),
    ensures
        b.version_artifacts(commit, with_soak, replies, at) matches Outcome::Gives(_, next) ==> {
            &&& at < next
            &&& next <= known ==> b.version_artifacts(
                commit,
                with_soak,
                replies.take(known as int),
                at,
            ) == b.version_artifacts(commit, with_soak, replies, at)
        },
{
    target_binary_on_prefix(b, commit, b.targets.rollup, replies, at, known);
    match b.target_binary(commit, b.targets.rollup, replies, at) {
        Outcome::Gives(_, next) => {
            target_binary_on_prefix(b, commit, b.targets.soak->0, replies, next, known);
        },
        _ => {},
    }
}

/// Artifacts that have been obtained depend on nothing but the replies that have been read.
pub proof fn artifacts_from_the_replies_read(
    b: BuilderView,
    versions: Seq<VersionBuildSpec>,
    soak_for_all: bool,
    done: Seq<PreparedVersionArtifacts<Seq<char>>>,
    replies: Seq<HostReply>,
    at: nat,
    known: nat,
)
    requires
        known <= replies.len(),
    ensures
        b.all_artifacts(versions, soak_for_all, done, replies, at) matches Outcome::Gives(_, next)
            ==> {
            &&& at <= next
            &&& next <= known ==> b.all_artifacts(
                versions,
                soak_for_all,
                done,
                replies.take(known as int),
                at,
            ) == b.all_artifacts(versions, soak_for_all, done, replies, at)
        },
    decreases versions.len(),
{
    if versions.len() > 0 {
        let commit = versions[0].commit@;
        let with_soak = soak_for_all || versions[0].build_soak;
        version_artifacts_on_prefix(b, commit, with_soak, replies, at, known);
        match b.version_artifacts(commit, with_soak, replies, at) {
            Outcome::Gives(artifacts, next) => {
                artifacts_from_the_replies_read(
                    b,
                    versions.skip(1),
                    soak_for_all,
                    done.push(artifacts),
                    replies,
                    next,
                    known,
                );
            },
            _ => {},
        }
    }
}

/// Artifacts that have been prepared are one set per version, in order, each at a path that the
/// spec and the request alone decide; so preparing them again gives the same paths.
pub proof fn prepared_paths_are_fixed(
    spec: BuildSpec,
    request: BuildRequest,
    replies: Seq<HostReply>,
    at: nat,
)
    ensures
        artifacts_prepared(spec, request, replies, at) matches Outcome::Gives((versions, mock), _)
            ==> {
            let b = requested_builder(spec, request);
            &&& versions == spec.versions@.map_values(
                |v: VersionBuildSpec| artifact_paths(b, v, request.build_soak_binaries),
            )
            &&& mock == if request.build_mock_da_binary && spec.versions@.len() > 0 {
                Some(
                    cached_binary(
                        b.cache_dir,
                        spec.versions@[0].commit@,
                        b.targets.mock_da->0.file_name(),
                    ),
                )
            } else {
                None
            }
        },
{
    let b = requested_builder(spec, request);
    let soak = request.build_soak_binaries;
    all_artifact_paths(b, spec.versions@, soak, seq![], replies, at);
    let paths = spec.versions@.map_values(|v: VersionBuildSpec| artifact_paths(b, v, soak));
    assert(seq![] + paths =~= paths);
    match b.all_artifacts(spec.versions@, soak, seq![], replies, at) {
        Outcome::Gives(_, next) => {
            if spec.versions@.len() > 0 {
                let commit = spec.versions@[0].commit@;
                target_binary_path(b, commit, b.targets.mock_da->0, replies, next);
            }
        },
        _ => {},
    }
}

/// A target is built in release mode: its package, where it has one, is named with the given flag,
/// then its binary; default features are switched off where the target says so, its features are
/// listed with commas between them where it has any, and its extra arguments come last.
pub proof fn target_is_built_as_it_says(target: TargetView, flag: Seq<char>)
    ensures
        ({
            let args = target.cargo_args(flag);
            let own = args.take(args.len() - target.extra_args.len());
            let package: nat = if target.package is Some {
                2
            } else {
                0
            };
            let defaults: nat = if target.no_default_features {
                1
            } else {
                0
            };
            let features: nat = if target.features.len() > 0 {
                2
            } else {
                0
            };
            &&& args.len() == 4 + package + defaults + features + target.extra_args.len()
            &&& args[0] == "build"@
            &&& args[1] == "--release"@
            &&& target.package matches Some(name) ==> args[2] == flag && args[3] == name
            &&& args[2 + package as int] == "--bin"@
            &&& args[3 + package as int] == target.bin
            &&& target.no_default_features ==> args[4 + package as int]
                == "--no-default-features"@
            &&& target.features.len() > 0 ==> args[4 + package + defaults as int] == "--features"@
                && args[5 + package + defaults as int] == joined(target.features, ","@)
            &&& args.skip(args.len() - target.extra_args.len()) == target.extra_args
        }),
{
    let args = target.cargo_args(flag);
    assert(args.skip(args.len() - target.extra_args.len()) =~= target.extra_args);
}

/// The targets of the starter repository: its rollup for the mock DA layer, its soak workers, and
/// its mock DA server. By default the rollup alone is built.
pub proof fn targets_are_the_starters()
    ensures
        default_targets().rollup == rollup_target(),
        default_targets().soak is None,
        default_targets().mock_da is None,
        rollup_target().bin == "rollup"@,
        rollup_target().package is None,
        rollup_target().cache_name == Some("sov-rollup-starter"@),
        rollup_target().no_default_features,
        rollup_target().features == seq![
            "acceptance-testing"@,
            "mock_da_external"@,
            "mock_zkvm"@,
        ],
        rollup_target().extra_args.len() == 0,
        soak_target().bin == "rollup-starter-soak-test"@,
        soak_target().package == Some("rollup-starter-soak-test"@),
        soak_target().cache_name == Some("rollup-starter-soak-test"@),
        !soak_target().no_default_features,
        soak_target().features.len() == 0,
        soak_target().extra_args.len() == 0,
        mock_da_target().bin == "mock-da-server"@,
        mock_da_target().package is None,
        mock_da_target().cache_name == Some("mock-da-server"@),
        mock_da_target().no_default_features,
        mock_da_target().features == seq!["mock_da_external"@, "mock_zkvm"@],
        mock_da_target().extra_args.len() == 0,
{
}

} // verus!
