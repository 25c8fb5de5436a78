//! Reading the declared dependencies out of `cargo metadata` output.
//!
//! `cargo_metadata::Metadata` is opaque to the verifier. What this module
//! needs from it has one name, [`root_dependencies`], and one function that is
//! believed rather than proved, [`root_package_dependencies`]. Everything
//! after that call is verified.

use vstd::prelude::*;
use crate::abi3::outcome_view;
use crate::error::ConfigurationError;
use crate::manifest::{
    dependency_views, tag_from_dependencies, tag_of_dependencies, Dependency, DependencyView,
};

verus! {

/// `cargo_metadata::Metadata`, carried through as an opaque value.
#[verifier::external_type_specification]
#[verifier::external_body]
pub struct ExMetadata(cargo_metadata::Metadata);

/// What the root package of `metadata` declares: the name and the enabled
/// features of each of its dependencies, in the order of the manifest, or
/// `None` where the metadata names no root package.
pub uninterp spec fn root_dependencies(metadata: cargo_metadata::Metadata) -> Option<
    Seq<DependencyView>,
>;

/// The dependencies that `metadata` declares for the build: those of its
/// root package, and none where it has no root package.
pub open spec fn declared(metadata: cargo_metadata::Metadata) -> Seq<DependencyView> {
    match root_dependencies(metadata) {
        Some(dependencies) => dependencies,
        None => Seq::empty(),
    }
}

/// Trusted: calls `cargo_metadata::Metadata::root_package` and copies the
/// `name` and `features` fields of each entry of the package's
/// `dependencies`, one for one and in order.
///
/// The contract claims only that the answer is a function of the metadata:
/// it is `None` exactly where `root_package` returns `None`, and otherwise
/// holds what that package's dependency list holds.
#[verifier::external_body]
fn root_package_dependencies(metadata: &cargo_metadata::Metadata) -> (found: Option<
    Vec<Dependency>,
>)
    ensures
        match found {
            Some(dependencies) => root_dependencies(*metadata) == Some(
                dependency_views(dependencies@),
            ),
            None => root_dependencies(*metadata) is None,
        },
{
    match metadata.root_package() {
        Some(package) => Some(
            package.dependencies.iter().map(
                |d| Dependency { name: d.name.clone(), features: d.features.clone() },
            ).collect(),
        ),
        None => None,
    }
}

/// The dependencies that `metadata` declares for the build.
pub fn declared_dependencies(metadata: &cargo_metadata::Metadata) -> (dependencies: Vec<
    Dependency,
>)
    ensures
        dependency_views(dependencies@) == declared(*metadata),
{
    match root_package_dependencies(metadata) {
        Some(dependencies) => dependencies,
        None => {
            let dependencies: Vec<Dependency> = Vec::new();
            assert(dependency_views(dependencies@) == Seq::<DependencyView>::empty());
            dependencies
        },
    }
}

/// Resolves `cargo metadata` output to the compatibility tag of the wheel.
///
/// Metadata without a root package declares no dependency, so it fails as a
/// manifest without the binding dependency does.
pub fn get_tag_from_cargo_metadata(metadata: &cargo_metadata::Metadata) -> (tag: Result<
    String,
    ConfigurationError,
>)
    ensures
        outcome_view(tag) == tag_of_dependencies(declared(*metadata)),
{
    let dependencies = declared_dependencies(metadata);
    tag_from_dependencies(&dependencies)
}

} // verus!
