//! Stable-ABI markers among the feature flags of the native-binding
//! dependency, and the compatibility tag they lead to.
//!
//! A feature flag is a marker when it is `abi3`, which stands for version
//! `3`, or when it starts with `abi3-py`, in which case what follows is the
//! version. Every marker's version must be numeric; the lowest one names the
//! tag, because a stable-ABI build has to load on the oldest interpreter it
//! declares. The tag always carries the Linux x86_64 platform.

use vstd::prelude::*;
use vstd::string::*;
use crate::error::{ConfigurationError, ConfigurationErrorView};
use crate::text::{has_prefix, same_text, skip_chars, texts, to_chars};
use crate::version::{decimal_value, parse_version, unsigned_part, version_number};

verus! {

/// The version that `flag` declares, if it is a stable-ABI marker.
pub open spec fn abi3_version(flag: Seq<char>) -> Option<Seq<char>> {
    if flag == "abi3"@ {
        Some("3"@)
    } else if "abi3-py"@.is_prefix_of(flag) {
        Some(flag.skip("abi3-py"@.len() as int))
    } else {
        None
    }
}

/// The versions that the markers among `flags` declare, in the order of the
/// flags. Flags that are no markers are passed over.
pub open spec fn abi3_versions(flags: Seq<Seq<char>>) -> Seq<Seq<char>>
    decreases flags.len(),
{
    if flags.len() == 0 {
        Seq::empty()
    } else {
        match abi3_version(flags.last()) {
            Some(version) => abi3_versions(flags.drop_last()).push(version),
            None => abi3_versions(flags.drop_last()),
        }
    }
}

/// Whether `versions[at]` is not numeric while every version before it is.
pub open spec fn first_non_numeric(versions: Seq<Seq<char>>, at: int) -> bool {
    &&& 0 <= at < versions.len()
    &&& version_number(versions[at]) is None
    &&& forall|k: int| 0 <= k < at ==> version_number(#[trigger] versions[k]) is Some
}

/// Whether every version of `versions` is numeric.
pub open spec fn all_numeric(versions: Seq<Seq<char>>) -> bool {
    forall|k: int| 0 <= k < versions.len() ==> version_number(#[trigger] versions[k]) is Some
}

/// Whether `versions[at]` denotes the lowest number of all, and is the first
/// to do so.
pub open spec fn first_minimum(versions: Seq<Seq<char>>, at: int) -> bool {
    &&& 0 <= at < versions.len()
    &&& forall|k: int|
        0 <= k < versions.len() ==> version_number(versions[at])->0 <= version_number(
            #[trigger] versions[k],
        )->0
    &&& forall|k: int|
        0 <= k < at ==> version_number(versions[at])->0 < version_number(#[trigger] versions[k])->0
}

/// The version that `versions` resolves to: the first of those that denote
/// the lowest number.
pub open spec fn minimum_version(versions: Seq<Seq<char>>) -> Result<
    Seq<char>,
    ConfigurationErrorView,
> {
    if versions.len() == 0 {
        Err(ConfigurationErrorView::NoAbi3Features)
    } else if !all_numeric(versions) {
        Err(
            ConfigurationErrorView::NonNumericVersion {
                token: versions[choose|at: int| first_non_numeric(versions, at)],
            },
        )
    } else {
        Ok(versions[choose|at: int| first_minimum(versions, at)])
    }
}

/// The compatibility tag of a stable-ABI wheel whose oldest supported
/// interpreter is `version`.
pub open spec fn abi3_tag(version: Seq<char>) -> Seq<char> {
    "cp"@ + version + "-abi3-linux_x86_64"@
}

/// The compatibility tag that the feature flags `flags` of the binding
/// dependency lead to.
pub open spec fn tag_of_features(flags: Seq<Seq<char>>) -> Result<Seq<char>, ConfigurationErrorView> {
    match minimum_version(abi3_versions(flags)) {
        Ok(version) => Ok(abi3_tag(version)),
        Err(error) => Err(error),
    }
}

/// The notice that tells the operator which version the build resolved to.
pub open spec fn version_notice(version: Seq<char>) -> Seq<char> {
    "Found minimum supported Python ABI version from Cargo.toml: "@ + version
}

/// The mathematical value of a tag or version, or of the error in its place.
pub open spec fn outcome_view(outcome: Result<String, ConfigurationError>) -> Result<
    Seq<char>,
    ConfigurationErrorView,
> {
    match outcome {
        Ok(text) => Ok(text@),
        Err(error) => Err(error@),
    }
}

/// At most one version is the first non-numeric one.
pub proof fn lemma_first_non_numeric_unique(versions: Seq<Seq<char>>, a: int, b: int)
    requires
        first_non_numeric(versions, a),
        first_non_numeric(versions, b),
    ensures
        a == b,
{
    if a < b {
        assert(version_number(versions[a]) is Some);
    } else if b < a {
        assert(version_number(versions[b]) is Some);
    }
}

/// At most one version is the first minimum.
pub proof fn lemma_first_minimum_unique(versions: Seq<Seq<char>>, a: int, b: int)
    requires
        first_minimum(versions, a),
        first_minimum(versions, b),
    ensures
        a == b,
{
    if a < b {
        assert(version_number(versions[b])->0 < version_number(versions[a])->0);
        assert(version_number(versions[a])->0 <= version_number(versions[b])->0);
    } else if b < a {
        assert(version_number(versions[a])->0 < version_number(versions[b])->0);
        assert(version_number(versions[b])->0 <= version_number(versions[a])->0);
    }
}

/// Every collected version is declared by a marker among the flags, and
/// every marker's version is collected.
pub proof fn lemma_versions_are_those_of_the_markers(flags: Seq<Seq<char>>)
    ensures
        forall|k: int|
            0 <= k < abi3_versions(flags).len() ==> exists|i: int|
                0 <= i < flags.len() && abi3_version(#[trigger] flags[i]) == Some(
                    #[trigger] abi3_versions(flags)[k],
                ),
        forall|i: int|
            0 <= i < flags.len() && abi3_version(#[trigger] flags[i]) is Some ==> exists|k: int|
                0 <= k < abi3_versions(flags).len() && #[trigger] abi3_versions(flags)[k]
                    == abi3_version(flags[i])->0,
    decreases flags.len(),
{
    let versions = abi3_versions(flags);
    if flags.len() > 0 {
        let front = flags.drop_last();
        let collected = abi3_versions(front);
        lemma_versions_are_those_of_the_markers(front);
        assert forall|k: int| 0 <= k < versions.len() implies exists|i: int|
            0 <= i < flags.len() && abi3_version(#[trigger] flags[i]) == Some(
                #[trigger] versions[k],
            ) by {
            if k < collected.len() {
                assert(versions[k] == collected[k]);
                let i = choose|i: int|
                    0 <= i < front.len() && abi3_version(#[trigger] front[i]) == Some(collected[k]);
                assert(flags[i] == front[i]);
            } else {
                assert(abi3_version(flags[flags.len() - 1]) == Some(versions[k]));
            }
        }
        assert forall|i: int|
            0 <= i < flags.len() && abi3_version(#[trigger] flags[i]) is Some implies exists|k: int|
            0 <= k < versions.len() && #[trigger] versions[k] == abi3_version(flags[i])->0 by {
            if i < front.len() {
                assert(flags[i] == front[i]);
                let k = choose|k: int|
                    0 <= k < collected.len() && #[trigger] collected[k] == abi3_version(
                        front[i],
                    )->0;
                assert(versions[k] == collected[k]);
            } else {
                assert(versions[versions.len() - 1] == abi3_version(flags[i])->0);
            }
        }
    }
}

/// Among numeric versions, one is the first minimum.
pub proof fn lemma_first_minimum_exists(versions: Seq<Seq<char>>)
    requires
        versions.len() > 0,
        all_numeric(versions),
    ensures
        exists|at: int| first_minimum(versions, at),
    decreases versions.len(),
{
    if versions.len() == 1 {
        assert(first_minimum(versions, 0));
    } else {
        let front = versions.drop_last();
        assert forall|k: int| 0 <= k < front.len() implies version_number(
            #[trigger] front[k],
        ) is Some by {
            assert(front[k] == versions[k]);
        }
        lemma_first_minimum_exists(front);
        let at = choose|at: int| first_minimum(front, at);
        let last = versions.len() - 1;
        assert(front[at] == versions[at]);
        if version_number(versions[last])->0 < version_number(versions[at])->0 {
            assert forall|k: int| 0 <= k < last implies version_number(versions[last])->0
                < version_number(#[trigger] versions[k])->0 by {
                assert(front[k] == versions[k]);
            }
            assert(first_minimum(versions, last));
        } else {
            assert forall|k: int| 0 <= k < versions.len() implies version_number(versions[at])->0
                <= version_number(#[trigger] versions[k])->0 by {
                if k < last {
                    assert(front[k] == versions[k]);
                }
            }
            assert forall|k: int| 0 <= k < at implies version_number(versions[at])->0
                < version_number(#[trigger] versions[k])->0 by {
                assert(front[k] == versions[k]);
            }
            assert(first_minimum(versions, at));
        }
    }
}

/// The lowest declared version names the tag.
///
/// Where the flags hold at least one stable-ABI marker and the version of
/// every marker is numeric, the tag is built from the version of one of the
/// markers, and no marker declares a lower number than that one.
pub proof fn law_lowest_version_names_the_tag(flags: Seq<Seq<char>>)
    requires
        exists|i: int| 0 <= i < flags.len() && abi3_version(#[trigger] flags[i]) is Some,
        forall|i: int|
            0 <= i < flags.len() && abi3_version(#[trigger] flags[i]) is Some ==> version_number(
                abi3_version(flags[i])->0,
            ) is Some,
    ensures
        exists|i: int|
            0 <= i < flags.len() && abi3_version(#[trigger] flags[i]) is Some && tag_of_features(
                flags,
            ) == Ok::<Seq<char>, ConfigurationErrorView>(abi3_tag(abi3_version(flags[i])->0))
                && forall|j: int|
                0 <= j < flags.len() && abi3_version(#[trigger] flags[j]) is Some
                    ==> version_number(abi3_version(flags[i])->0)->0 <= version_number(
                    abi3_version(flags[j])->0,
                )->0,
{
    let versions = abi3_versions(flags);
    lemma_versions_are_those_of_the_markers(flags);
    assert(versions.len() > 0) by {
        let marker = choose|i: int|
            0 <= i < flags.len() && abi3_version(#[trigger] flags[i]) is Some;
        let collected = choose|k: int|
            0 <= k < versions.len() && #[trigger] versions[k] == abi3_version(flags[marker])->0;
    }
    assert forall|k: int| 0 <= k < versions.len() implies version_number(
        #[trigger] versions[k],
    ) is Some by {
        let i = choose|i: int|
            0 <= i < flags.len() && abi3_version(#[trigger] flags[i]) == Some(versions[k]);
        assert(abi3_version(flags[i]) is Some);
    }
    lemma_first_minimum_exists(versions);
    let at = choose|at: int| first_minimum(versions, at);
    let source = choose|i: int|
        0 <= i < flags.len() && abi3_version(#[trigger] flags[i]) == Some(versions[at]);
    assert forall|j: int|
        0 <= j < flags.len() && abi3_version(#[trigger] flags[j]) is Some implies version_number(
        abi3_version(flags[source])->0,
    )->0 <= version_number(abi3_version(flags[j])->0)->0 by {
        let k = choose|k: int|
            0 <= k < versions.len() && #[trigger] versions[k] == abi3_version(flags[j])->0;
        assert(version_number(versions[at])->0 <= version_number(versions[k])->0);
    }
}

/// Flags without a stable-ABI marker lead to no tag: the build fails for
/// want of such a feature.
pub proof fn law_flags_without_marker_are_an_error(flags: Seq<Seq<char>>)
    requires
        forall|i: int| 0 <= i < flags.len() ==> abi3_version(#[trigger] flags[i]) is None,
    ensures
        tag_of_features(flags) == Err::<Seq<char>, ConfigurationErrorView>(
            ConfigurationErrorView::NoAbi3Features,
        ),
{
    lemma_versions_are_those_of_the_markers(flags);
    let versions = abi3_versions(flags);
    if versions.len() > 0 {
        let i = choose|i: int|
            0 <= i < flags.len() && abi3_version(#[trigger] flags[i]) == Some(versions[0]);
        assert(abi3_version(flags[i]) is None);
    }
}

/// The plain marker `abi3` declares version `3`, which denotes the number 3.
pub proof fn law_plain_marker_is_version_three()
    ensures
        abi3_version("abi3"@) == Some("3"@),
        version_number("3"@) == Some(3u32),
{
    reveal_strlit("3");
    let three = "3"@;
    assert(three.len() == 1 && three[0] == '3');
    assert(unsigned_part(three) == three);
    assert(three.drop_last().len() == 0);
    assert(decimal_value(three) == 3) by {
        reveal_with_fuel(decimal_value, 2);
    }
}

/// A flag made of `abi3-py` and a version declares that version.
pub proof fn law_versioned_marker_declares_its_suffix(version: Seq<char>)
    ensures
        abi3_version("abi3-py"@ + version) == Some(version),
{
    reveal_strlit("abi3");
    reveal_strlit("abi3-py");
    let flag = "abi3-py"@ + version;
    assert(flag.len() >= 7);
    assert(flag.subrange(0, 7) == "abi3-py"@);
    assert(flag.skip(7) == version);
}

/// Reads one feature flag: the version it declares if it is a stable-ABI
/// marker, `None` otherwise.
pub fn parse_abi3(abi3_feature: &str) -> (version: Option<String>)
    ensures
        match version {
            Some(v) => abi3_version(abi3_feature@) == Some(v@),
            None => abi3_version(abi3_feature@) is None,
        },
{
    if same_text(abi3_feature, "abi3") {
        return Some(String::from_str("3"));
    }
    let prefix = to_chars("abi3-py");
    if has_prefix(&to_chars(abi3_feature), &prefix) {
        Some(skip_chars(abi3_feature, prefix.len()))
    } else {
        None
    }
}

/// Collects the versions that the stable-ABI markers among `flags` declare.
pub fn collect_abi3_versions(flags: &Vec<String>) -> (versions: Vec<String>)
    ensures
        texts(versions@) == abi3_versions(texts(flags@)),
{
    let mut versions: Vec<String> = Vec::new();
    let mut i: usize = 0;
    while i < flags.len()
        invariant
            i <= flags.len(),
            texts(versions@) == abi3_versions(texts(flags@).take(i as int)),
        decreases flags.len() - i,
    {
        let ghost seen = texts(flags@).take(i + 1);
        assert(seen.drop_last() == texts(flags@).take(i as int));
        assert(seen.last() == flags@[i as int]@);
        match parse_abi3(flags[i].as_str()) {
            Some(version) => {
                let ghost before = versions@;
                versions.push(version);
                assert(texts(versions@) == texts(before).push(version@));
            },
            None => {},
        }
        i += 1;
    }
    assert(texts(flags@).take(flags@.len() as int) == texts(flags@));
    versions
}

/// Checks that every version is numeric and finds the one to build for.
///
/// The answer is the position of the first version that denotes the lowest
/// number. An empty list and a version that is not numeric are errors; of
/// several versions that are not numeric, the first is reported.
pub fn select_minimum(versions: &Vec<String>) -> (found: Result<usize, ConfigurationError>)
    ensures
        match found {
            Ok(at) => all_numeric(texts(versions@)) && first_minimum(texts(versions@), at as int),
            Err(error) => minimum_version(texts(versions@)) == Err::<Seq<char>, _>(error@),
        },
{
    let ghost tokens = texts(versions@);
    if versions.len() == 0 {
        return Err(ConfigurationError::NoAbi3Features);
    }
    let mut best: usize = 0;
    let mut best_number: u32 = 0;
    let mut i: usize = 0;
    while i < versions.len()
        invariant
            i <= versions.len(),
            tokens == texts(versions@),
            forall|k: int| 0 <= k < i ==> version_number(#[trigger] tokens[k]) is Some,
            i > 0 ==> first_minimum(tokens.take(i as int), best as int),
            i > 0 ==> best_number == version_number(tokens[best as int])->0,
        decreases versions.len() - i,
    {
        let ghost seen = tokens.take(i + 1);
        match parse_version(versions[i].as_str()) {
            None => {
                proof {
                    assert(first_non_numeric(tokens, i as int));
                    let at = choose|at: int| first_non_numeric(tokens, at);
                    lemma_first_non_numeric_unique(tokens, at, i as int);
                }
                return Err(ConfigurationError::NonNumericVersion { token: versions[i].clone() });
            },
            Some(number) => {
                if i == 0 || number < best_number {
                    best = i;
                    best_number = number;
                }
                assert(first_minimum(seen, best as int)) by {
                    assert forall|k: int| 0 <= k < seen.len() implies version_number(
                        seen[best as int],
                    )->0 <= version_number(#[trigger] seen[k])->0 by {
                        if k < i {
                            assert(seen[k] == tokens.take(i as int)[k]);
                        }
                    }
                    assert forall|k: int| 0 <= k < best implies version_number(seen[best as int])->0
                        < version_number(#[trigger] seen[k])->0 by {
                        assert(seen[k] == tokens.take(i as int)[k]);
                    }
                }
            },
        }
        i += 1;
    }
    assert(tokens.take(versions@.len() as int) == tokens);
    Ok(best)
}

/// Formats the compatibility tag of a stable-ABI wheel whose oldest
/// supported interpreter is `version`.
pub fn format_abi3_tag(version: &str) -> (tag: String)
    ensures
        tag@ == abi3_tag(version@),
{
    let mut tag = String::from_str("cp");
    tag.append(version);
    tag.append("-abi3-linux_x86_64");
    tag
}

/// Words the notice that tells the operator which version the build
/// resolved to.
pub fn minimum_version_notice(version: &str) -> (notice: String)
    ensures
        notice@ == version_notice(version@),
{
    let mut notice = String::from_str(
        "Found minimum supported Python ABI version from Cargo.toml: ",
    );
    notice.append(version);
    notice
}

/// Resolves the feature flags of the binding dependency to the version to
/// build for.
pub fn minimum_abi3_version(flags: &Vec<String>) -> (version: Result<String, ConfigurationError>)
    ensures
        outcome_view(version) == minimum_version(abi3_versions(texts(flags@))),
{
    let versions = collect_abi3_versions(flags);
    match select_minimum(&versions) {
        Ok(at) => {
            proof {
                let chosen = choose|k: int| first_minimum(texts(versions@), k);
                lemma_first_minimum_unique(texts(versions@), chosen, at as int);
            }
            Ok(versions[at].clone())
        },
        Err(error) => Err(error),
    }
}

/// Resolves the feature flags of the binding dependency to the
/// compatibility tag of the wheel.
pub fn tag_from_features(flags: &Vec<String>) -> (tag: Result<String, ConfigurationError>)
    ensures
        outcome_view(tag) == tag_of_features(texts(flags@)),
{
    match minimum_abi3_version(flags) {
        Ok(version) => Ok(format_abi3_tag(version.as_str())),
        Err(error) => Err(error),
    }
}

} // verus!
