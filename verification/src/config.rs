//! The manager's configuration: the rollup versions to run, and the heights they run between.
use vstd::prelude::*;

verus! {

/// What came of reading a file and decoding its content.
#[derive(Debug)]
pub enum FileRead<T> {
    /// The file could not be read; the system's message.
    Unreadable(String),
    /// The content is not what the file should hold; the decoder's message.
    Malformed(String),
    /// The decoded content.
    Parsed(T),
}

/// A single rollup version configuration.
#[derive(Debug)]
pub struct RollupVersion {
    /// Path to the rollup binary for this version.
    pub rollup_binary: String,
    /// Path to the rollup config file for this version.
    pub config_path: String,
    /// Optional path to a migration binary/script to run before starting this version.
    /// This is run after the previous version stops and before this version starts.
    pub migration_path: Option<String>,
    /// The block height at which this version starts processing.
    /// Must be None for the first version, required for all others.
    pub start_height: Option<u64>,
    /// The block height at which this version stops processing.
    /// Required for all versions except the last, optional for the last.
    pub stop_height: Option<u64>,
}

impl Clone for RollupVersion {
    fn clone(&self) -> (r: Self)
        ensures
            r == *self,
    {
        RollupVersion {
            rollup_binary: self.rollup_binary.clone(),
            config_path: self.config_path.clone(),
            migration_path: self.migration_path.clone(),
            start_height: self.start_height,
            stop_height: self.stop_height,
        }
    }
}

/// The text of a version's configuration.
#[verifier::ext_equal]
pub struct VersionView {
    pub rollup_binary: Seq<char>,
    pub config_path: Seq<char>,
    pub migration_path: Option<Seq<char>>,
    pub start_height: Option<u64>,
    pub stop_height: Option<u64>,
}

impl DeepView for RollupVersion {
    type V = VersionView;

    open spec fn deep_view(&self) -> VersionView {
        VersionView {
            rollup_binary: self.rollup_binary@,
            config_path: self.config_path@,
            migration_path: self.migration_path.deep_view(),
            start_height: self.start_height,
            stop_height: self.stop_height,
        }
    }
}

/// The top-level manager configuration.
#[derive(Debug)]
pub struct ManagerConfig {
    /// Ordered list of rollup versions, from oldest to newest.
    pub versions: Vec<RollupVersion>,
}

impl Clone for ManagerConfig {
    fn clone(&self) -> (r: Self)
        ensures
            r.versions@ == self.versions@,
    {
        let versions = self.versions.clone();
        assert(versions@ =~= self.versions@);
        ManagerConfig { versions }
    }
}

/// Why a configuration is refused.
#[derive(Debug)]
pub enum ConfigError {
    ReadFile(String),
    Parse(String),
    NoVersions,
    FirstVersionHasStartHeight,
    MissingStartHeight { index: usize },
    MissingStopHeight { index: usize },
    HeightGap {
        prev_index: usize,
        next_index: usize,
        stop_height: u64,
        start_height: u64,
        expected_start: u64,
    },
}

/// What every configuration must satisfy: there is a version, the first one has no start height,
/// every version but the last has a stop height, and each version starts one above the height at
/// which its predecessor stops.
pub open spec fn well_formed(v: Seq<RollupVersion>) -> bool {
    &&& v.len() > 0
    &&& v[0].start_height is None
    &&& forall|i: int| 0 <= i < v.len() - 1 ==> (#[trigger] v[i]).stop_height is Some
    &&& forall|i: int|
        1 <= i < v.len() ==> {
            &&& (#[trigger] v[i]).start_height is Some
            &&& v[i].start_height->0 == v[i - 1].stop_height->0 + 1
        }
}

/// What is wrong with the version at `i`, which is not the first, given that its predecessor
/// has a stop height.
pub open spec fn version_error(v: Seq<RollupVersion>, i: int) -> Option<ConfigError> {
    if v[i].start_height is None {
        Some(ConfigError::MissingStartHeight { index: i as usize })
    } else if i < v.len() - 1 && v[i].stop_height is None {
        Some(ConfigError::MissingStopHeight { index: i as usize })
    } else if v[i].start_height->0 != v[i - 1].stop_height->0 + 1 {
        Some(
            ConfigError::HeightGap {
                prev_index: (i - 1) as usize,
                next_index: i as usize,
                stop_height: v[i - 1].stop_height->0,
                start_height: v[i].start_height->0,
                expected_start: (v[i - 1].stop_height->0 + 1) as u64,
            },
        )
    } else {
        None
    }
}

/// What is wrong with the list as a whole or with its first version.
pub open spec fn head_error(v: Seq<RollupVersion>) -> Option<ConfigError> {
    if v.len() == 0 {
        Some(ConfigError::NoVersions)
    } else if v[0].start_height is Some {
        Some(ConfigError::FirstVersionHasStartHeight)
    } else if v.len() > 1 && v[0].stop_height is None {
        Some(ConfigError::MissingStopHeight { index: 0 })
    } else {
        None
    }
}

/// Whether everything before the version at `i` is in order.
pub open spec fn sound_before(v: Seq<RollupVersion>, i: int) -> bool {
    head_error(v) is None && forall|j: int| 1 <= j < i ==> #[trigger] version_error(v, j) is None
}

/// Whether the first thing to settle at `i` is the height after the greatest possible one.
pub open spec fn height_overflows(v: Seq<RollupVersion>, i: int) -> bool {
    &&& 1 <= i < v.len()
    &&& sound_before(v, i)
    &&& v[i].start_height is Some
    &&& i < v.len() - 1 ==> v[i].stop_height is Some
    &&& v[i - 1].stop_height == Some(u64::MAX)
}

/// Whether every height that validation has to compute can be represented.
pub open spec fn heights_representable(v: Seq<RollupVersion>) -> bool {
    forall|i: int| !#[trigger] height_overflows(v, i)
}

/// The verdict on a configuration: the error of the first offending version, in order.
pub open spec fn is_verdict(v: Seq<RollupVersion>, r: Result<(), ConfigError>) -> bool {
    match r {
        Ok(()) => well_formed(v),
        Err(e) => {
            ||| head_error(v) == Some(e)
            ||| exists|i: int|
                1 <= i < v.len() && sound_before(v, i) && #[trigger] version_error(v, i) == Some(e)
        },
    }
}

impl ManagerConfig {
    /// Validate that the config is well-formed, or report that a height overflows.
    fn verdict(&self) -> (r: Option<Result<(), ConfigError>>)
        ensures
            r is Some <==> heights_representable(self.versions@),
            r is Some ==> is_verdict(self.versions@, r->0),
    {
        let ghost v = self.versions@;
        if self.versions.len() == 0 {
            return Some(Err(ConfigError::NoVersions));
        }
        let first = &self.versions[0];
        if first.start_height.is_some() {
            return Some(Err(ConfigError::FirstVersionHasStartHeight));
        }
        if self.versions.len() == 1 {
            return Some(Ok(()));
        }
        if first.stop_height.is_none() {
            return Some(Err(ConfigError::MissingStopHeight { index: 0 }));
        }
        let mut i: usize = 1;
        while i < self.versions.len()
            invariant
                v == self.versions@,
                1 <= i <= v.len(),
                v.len() > 1,
                head_error(v) is None,
                sound_before(v, i as int),
                v[i - 1].stop_height is Some || i == v.len(),
                forall|j: int| 1 <= j < i ==> !#[trigger] height_overflows(v, j),
                forall|j: int|
                    1 <= j < i ==> (#[trigger] v[j]).start_height is Some && v[j].start_height->0
                        == v[j - 1].stop_height->0 + 1,
                forall|j: int|
                    0 <= j < i && j < v.len() - 1 ==> (#[trigger] v[j]).stop_height is Some,
            decreases v.len() - i,
        {
            let prev = &self.versions[i - 1];
            let curr = &self.versions[i];
            let start_height = match curr.start_height {
                Some(h) => h,
                None => {
                    assert(version_error(v, i as int) is Some);
                    return Some(Err(ConfigError::MissingStartHeight { index: i }));
                },
            };
            if i < self.versions.len() - 1 && curr.stop_height.is_none() {
                assert(version_error(v, i as int) is Some);
                return Some(Err(ConfigError::MissingStopHeight { index: i }));
            }
            let prev_stop = prev.stop_height.unwrap();
            if prev_stop == u64::MAX {
                assert(height_overflows(v, i as int));
                return None;
            }
            let expected_start = prev_stop + 1;
            if start_height != expected_start {
                assert(version_error(v, i as int) is Some);
                return Some(
                    Err(
                        ConfigError::HeightGap {
                            prev_index: i - 1,
                            next_index: i,
                            stop_height: prev_stop,
                            start_height,
                            expected_start,
                        },
                    ),
                );
            }
            assert(version_error(v, i as int) is None);
            i = i + 1;
        }
        Some(Ok(()))
    }

    /// Whether validation can compute every height that it has to compare.
    pub fn is_representable(&self) -> (b: bool)
        ensures
            b == heights_representable(self.versions@),
    {
        self.verdict().is_some()
    }

    /// Validate that the config is well-formed.
    pub fn validate(&self) -> (r: Result<(), ConfigError>)
        requires
            heights_representable(self.versions@),
        ensures
            is_verdict(self.versions@, r),
            r is Ok <==> well_formed(self.versions@),
    {
        let verdict = self.verdict();
        proof {
            verdict_decides(self.versions@, verdict->0);
        }
        verdict.unwrap()
    }

    /// Take a decoded config file and validate it.
    pub fn load(file: FileRead<ManagerConfig>) -> (r: Result<Self, ConfigError>)
        requires
            file matches FileRead::Parsed(c) ==> heights_representable(c.versions@),
        ensures
            match file {
                FileRead::Unreadable(m) => r == Err::<Self, _>(ConfigError::ReadFile(m)),
                FileRead::Malformed(m) => r == Err::<Self, _>(ConfigError::Parse(m)),
                FileRead::Parsed(c) => match r {
                    Ok(config) => config == c && well_formed(c.versions@),
                    Err(e) => !well_formed(c.versions@) && is_verdict(c.versions@, Err(e)),
                },
            },
    {
        match file {
            FileRead::Unreadable(m) => Err(ConfigError::ReadFile(m)),
            FileRead::Malformed(m) => Err(ConfigError::Parse(m)),
            FileRead::Parsed(config) => match config.validate() {
                Ok(()) => Ok(config),
                Err(e) => Err(e),
            },
        }
    }
}

/// A verdict that names an error refuses only configurations that are not well-formed, and names
/// the one error that there is.
pub proof fn verdict_decides(v: Seq<RollupVersion>, r: Result<(), ConfigError>)
    requires
        is_verdict(v, r),
        heights_representable(v),
    ensures
        r is Ok <==> well_formed(v),
        forall|s: Result<(), ConfigError>| is_verdict(v, s) ==> s == r,
{
    assert(well_formed(v) ==> head_error(v) is None && forall|i: int|
        1 <= i < v.len() ==> #[trigger] version_error(v, i) is None);
    assert forall|s: Result<(), ConfigError>| is_verdict(v, s) implies s == r by {
        if let (Ok(_), Ok(_)) = (r, s) {
            assert(r->Ok_0 == s->Ok_0);
        }
        if let (Err(e), Err(f)) = (r, s) {
            if head_error(v) is None {
                let i = choose|i: int|
                    1 <= i < v.len() && sound_before(v, i) && #[trigger] version_error(v, i)
                        == Some(e);
                let j = choose|j: int|
                    1 <= j < v.len() && sound_before(v, j) && #[trigger] version_error(v, j)
                        == Some(f);
                assert(i == j);
            }
        }
    }
}

/// The height at which the version at `i` begins: the chain's first for the first version.
pub open spec fn first_height(v: Seq<RollupVersion>, i: int) -> int {
    if i == 0 {
        0
    } else {
        v[i].start_height->0 as int
    }
}

/// Whether the version at `i` is the one that processes height `h`.
pub open spec fn processes(v: Seq<RollupVersion>, i: int, h: int) -> bool {
    &&& 0 <= i < v.len()
    &&& first_height(v, i) <= h
    &&& v[i].stop_height is Some ==> h <= v[i].stop_height->0
}

proof fn heights_ascend(v: Seq<RollupVersion>, i: int, j: int)
    requires
        well_formed(v),
        forall|k: int|
            0 <= k < v.len() && (#[trigger] v[k]).stop_height is Some ==> first_height(v, k)
                <= v[k].stop_height->0,
        0 <= i < j < v.len(),
    ensures
        v[i].stop_height->0 < first_height(v, j),
    decreases j,
{
    assert(v[j].start_height->0 == v[j - 1].stop_height->0 + 1);
    if i < j - 1 {
        heights_ascend(v, i, j - 1);
        assert(v[j - 1].stop_height is Some);
    }
}

proof fn some_version_processes(v: Seq<RollupVersion>, i: int, h: int) -> (k: int)
    requires
        well_formed(v),
        0 <= i < v.len(),
        first_height(v, i) <= h,
        v.last().stop_height is Some ==> h <= v.last().stop_height->0,
    ensures
        processes(v, k, h),
    decreases v.len() - i,
{
    if v[i].stop_height is Some && h > v[i].stop_height->0 {
        assert(v[i + 1].start_height->0 == v[i].stop_height->0 + 1);
        some_version_processes(v, i + 1, h)
    } else {
        i
    }
}

/// In a well-formed configuration whose versions each stop no earlier than they start, every
/// height up to the last version's stop height is processed by exactly one version.
pub proof fn every_height_has_one_version(v: Seq<RollupVersion>, h: int)
    requires
        well_formed(v),
        forall|k: int|
            0 <= k < v.len() && (#[trigger] v[k]).stop_height is Some ==> first_height(v, k)
                <= v[k].stop_height->0,
        0 <= h,
        v.last().stop_height is Some ==> h <= v.last().stop_height->0,
    ensures
        exists|i: int| processes(v, i, h),
        forall|i: int, j: int| processes(v, i, h) && processes(v, j, h) ==> i == j,
{
    let k = some_version_processes(v, 0, h);
    assert(processes(v, k, h));
    assert forall|i: int, j: int| processes(v, i, h) && processes(v, j, h) implies i == j by {
        if i < j {
            heights_ascend(v, i, j);
            assert(v[i].stop_height is Some);
        } else if j < i {
            heights_ascend(v, j, i);
            assert(v[j].stop_height is Some);
        }
    }
}

/// A configuration is accepted exactly where it has a version, the first has no start height, every
/// other one starts one above the stop height of the one before it, and every one but the last has
/// a stop height. What a refusal says is so.
pub proof fn refusal_says_what_is_wrong(v: Seq<RollupVersion>, r: Result<(), ConfigError>)
    requires
        is_verdict(v, r),
        heights_representable(v),
        v.len() <= usize::MAX,
    ensures
        r is Ok <==> {
            &&& v.len() >= 1
            &&& v[0].start_height is None
            &&& forall|i: int|
                0 < i < v.len() ==> ((#[trigger] v[i]).start_height matches Some(start)
                    && v[i - 1].stop_height matches Some(stop) && start == stop + 1)
        },
        v.len() == 0 ==> r == Err::<(), ConfigError>(ConfigError::NoVersions),
        v.len() > 0 && v[0].start_height is Some ==> r == Err::<(), ConfigError>(
            ConfigError::FirstVersionHasStartHeight,
        ),
        r matches Err(e) ==> match e {
            ConfigError::NoVersions => v.len() == 0,
            ConfigError::FirstVersionHasStartHeight => v.len() > 0 && v[0].start_height is Some,
            ConfigError::MissingStartHeight { index } => 0 < index < v.len()
                && v[index as int].start_height is None,
            ConfigError::MissingStopHeight { index } => index < v.len() - 1
                && v[index as int].stop_height is None,
            ConfigError::HeightGap {
                prev_index,
                next_index,
                stop_height,
                start_height,
                expected_start,
            } => {
                &&& next_index == prev_index + 1
                &&& next_index < v.len()
                &&& v[prev_index as int].stop_height == Some(stop_height)
                &&& v[next_index as int].start_height == Some(start_height)
                &&& expected_start == stop_height + 1
                &&& start_height != expected_start
            },
            _ => false,
        },
{
    verdict_decides(v, r);
    let listed = v.len() >= 1 && v[0].start_height is None && (forall|i: int|
        0 < i < v.len() ==> ((#[trigger] v[i]).start_height matches Some(start)
            && v[i - 1].stop_height matches Some(stop) && start == stop + 1));
    if listed {
        assert forall|i: int| 0 <= i < v.len() - 1 implies (#[trigger] v[i]).stop_height is Some by {
            assert(v[i + 1].start_height is Some);
        }
        assert(well_formed(v));
    }
    if let Err(e) = r {
        if head_error(v) is None {
            let i = choose|i: int|
                1 <= i < v.len() && sound_before(v, i) && #[trigger] version_error(v, i) == Some(
                    e,
                );
            assert(!height_overflows(v, i));
            if i > 1 {
                assert(version_error(v, i - 1) is None);
            }
        }
    }
}

/// Validation can compare every height unless a version stops at the greatest possible one and has
/// another one behind it.
pub proof fn only_the_greatest_height_overflows(v: Seq<RollupVersion>)
    requires
        forall|i: int|
            0 <= i < v.len() - 1 ==> (#[trigger] v[i]).stop_height != Some(u64::MAX),
    ensures
        heights_representable(v),
{
}

} // verus!
