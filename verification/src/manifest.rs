//! The manifest-driven tagging strategy.
//!
//! The dependencies that the build manifest declares are searched for the
//! native-binding package, and the stable-ABI markers among its enabled
//! features decide the compatibility tag. No interpreter is consulted.

use vstd::prelude::*;
use vstd::string::*;
use crate::abi3::{
    abi3_tag, abi3_versions, format_abi3_tag, minimum_abi3_version, minimum_version,
    outcome_view, tag_of_features,
};
use crate::error::{ConfigurationError, ConfigurationErrorView};
use crate::text::{same_text, texts};

verus! {

/// One dependency that the build manifest declares.
#[derive(Clone, Debug, PartialEq, Eq)]
pub struct Dependency {
    /// The package's name.
    pub name: String,
    /// The feature flags enabled for it.
    pub features: Vec<String>,
}

/// The mathematical value of a [`Dependency`].
pub struct DependencyView {
    pub name: Seq<char>,
    pub features: Seq<Seq<char>>,
}

impl View for Dependency {
    type V = DependencyView;

    open spec fn view(&self) -> DependencyView {
        DependencyView { name: self.name@, features: texts(self.features@) }
    }
}

/// The view of each dependency of `dependencies`, in order.
pub open spec fn dependency_views(dependencies: Seq<Dependency>) -> Seq<DependencyView> {
    dependencies.map_values(|d: Dependency| d@)
}

/// The name of the native-binding package.
pub open spec fn binding_package() -> Seq<char> {
    "pyo3"@
}

/// Whether some dependency carries the name of the binding package.
pub open spec fn declares_binding(dependencies: Seq<DependencyView>) -> bool {
    exists|at: int|
        0 <= at < dependencies.len() && (#[trigger] dependencies[at]).name == binding_package()
}

/// Whether `dependencies[at]` is the first to carry the name of the binding
/// package.
pub open spec fn first_binding(dependencies: Seq<DependencyView>, at: int) -> bool {
    &&& 0 <= at < dependencies.len()
    &&& dependencies[at].name == binding_package()
    &&& forall|k: int| 0 <= k < at ==> (#[trigger] dependencies[k]).name != binding_package()
}

/// The feature flags of the binding dependency: those of the first
/// dependency that carries its name.
pub open spec fn binding_features(dependencies: Seq<DependencyView>) -> Option<Seq<Seq<char>>> {
    if declares_binding(dependencies) {
        Some(dependencies[choose|at: int| first_binding(dependencies, at)].features)
    } else {
        None
    }
}

/// The version that the declared dependencies resolve to.
pub open spec fn version_of_dependencies(dependencies: Seq<DependencyView>) -> Result<
    Seq<char>,
    ConfigurationErrorView,
> {
    match binding_features(dependencies) {
        Some(flags) => minimum_version(abi3_versions(flags)),
        None => Err(ConfigurationErrorView::MissingBindingDependency),
    }
}

/// The compatibility tag that the declared dependencies lead to.
pub open spec fn tag_of_dependencies(dependencies: Seq<DependencyView>) -> Result<
    Seq<char>,
    ConfigurationErrorView,
> {
    match version_of_dependencies(dependencies) {
        Ok(version) => Ok(abi3_tag(version)),
        Err(error) => Err(error),
    }
}

/// At most one dependency is the first to carry the binding package's name.
pub proof fn lemma_first_binding_unique(dependencies: Seq<DependencyView>, a: int, b: int)
    requires
        first_binding(dependencies, a),
        first_binding(dependencies, b),
    ensures
        a == b,
{
    if a < b {
        assert(dependencies[a].name != binding_package());
    } else if b < a {
        assert(dependencies[b].name != binding_package());
    }
}

/// The first dependency named as the binding package decides: the declared
/// dependencies lead to the tag that its feature flags lead to.
pub proof fn law_first_binding_decides(dependencies: Seq<DependencyView>, at: int)
    requires
        first_binding(dependencies, at),
    ensures
        binding_features(dependencies) == Some(dependencies[at].features),
        tag_of_dependencies(dependencies) == tag_of_features(dependencies[at].features),
{
    let chosen = choose|k: int| first_binding(dependencies, k);
    lemma_first_binding_unique(dependencies, chosen, at);
}

/// Without a dependency named as the binding package there is no tag: the
/// build fails for want of the binding dependency.
pub proof fn law_missing_binding_is_an_error(dependencies: Seq<DependencyView>)
    requires
        forall|k: int|
            0 <= k < dependencies.len() ==> (#[trigger] dependencies[k]).name != binding_package(),
    ensures
        tag_of_dependencies(dependencies) == Err::<Seq<char>, ConfigurationErrorView>(
            ConfigurationErrorView::MissingBindingDependency,
        ),
{
}

/// Finds the binding dependency: the position of the first dependency named
/// as the binding package, if there is one.
pub fn find_binding(dependencies: &Vec<Dependency>) -> (found: Option<usize>)
    ensures
        match found {
            Some(at) => first_binding(dependency_views(dependencies@), at as int),
            None => !declares_binding(dependency_views(dependencies@)),
        },
{
    let ghost declared = dependency_views(dependencies@);
    let mut i: usize = 0;
    while i < dependencies.len()
        invariant
            i <= dependencies.len(),
            declared == dependency_views(dependencies@),
            forall|k: int| 0 <= k < i ==> (#[trigger] declared[k]).name != binding_package(),
        decreases dependencies.len() - i,
    {
        if same_text(dependencies[i].name.as_str(), "pyo3") {
            return Some(i);
        }
        i += 1;
    }
    None
}

/// Resolves the declared dependencies to the version to build for.
pub fn version_from_dependencies(dependencies: &Vec<Dependency>) -> (version: Result<
    String,
    ConfigurationError,
>)
    ensures
        outcome_view(version) == version_of_dependencies(dependency_views(dependencies@)),
{
    match find_binding(dependencies) {
        Some(at) => {
            proof {
                let declared = dependency_views(dependencies@);
                let chosen = choose|k: int| first_binding(declared, k);
                lemma_first_binding_unique(declared, chosen, at as int);
            }
            minimum_abi3_version(&dependencies[at].features)
        },
        None => Err(ConfigurationError::MissingBindingDependency),
    }
}

/// Resolves the declared dependencies to the compatibility tag of the wheel.
pub fn tag_from_dependencies(dependencies: &Vec<Dependency>) -> (tag: Result<
    String,
    ConfigurationError,
>)
    ensures
        outcome_view(tag) == tag_of_dependencies(dependency_views(dependencies@)),
{
    match version_from_dependencies(dependencies) {
        Ok(version) => Ok(format_abi3_tag(version.as_str())),
        Err(error) => Err(error),
    }
}

} // verus!
