//! The failures that end a build, and the message shown for each.
//!
//! Every failure is final: nothing is retried, and the message names the
//! stage that failed.

use vstd::prelude::*;
use vstd::string::*;

verus! {

/// The build manifest does not declare a usable stable-ABI configuration.
#[derive(Clone, Debug, PartialEq, Eq)]
pub enum ConfigurationError {
    /// No declared dependency carries the name of the native-binding package.
    MissingBindingDependency,
    /// The binding dependency enables no stable-ABI feature.
    NoAbi3Features,
    /// A stable-ABI feature names a version that is not a number.
    NonNumericVersion { token: String },
}

/// The mathematical value of a [`ConfigurationError`].
pub enum ConfigurationErrorView {
    MissingBindingDependency,
    NoAbi3Features,
    NonNumericVersion { token: Seq<char> },
}

impl View for ConfigurationError {
    type V = ConfigurationErrorView;

    open spec fn view(&self) -> ConfigurationErrorView {
        match self {
            ConfigurationError::MissingBindingDependency => ConfigurationErrorView::MissingBindingDependency,
            ConfigurationError::NoAbi3Features => ConfigurationErrorView::NoAbi3Features,
            ConfigurationError::NonNumericVersion { token } => ConfigurationErrorView::NonNumericVersion {
                token: token@,
            },
        }
    }
}

impl ConfigurationErrorView {
    /// The text shown for this error.
    pub open spec fn message(self) -> Seq<char> {
        match self {
            ConfigurationErrorView::MissingBindingDependency => "missing required binding dependency"@,
            ConfigurationErrorView::NoAbi3Features => "no ABI3 feature flags found"@,
            ConfigurationErrorView::NonNumericVersion { token } => "ABI3 version is not a number: "@
                + token,
        }
    }
}

impl ConfigurationError {
    /// The text shown for this error.
    pub fn message(&self) -> (text: String)
        ensures
            text@ == self@.message(),
    {
        match self {
            ConfigurationError::MissingBindingDependency => String::from_str(
                "missing required binding dependency",
            ),
            ConfigurationError::NoAbi3Features => String::from_str("no ABI3 feature flags found"),
            ConfigurationError::NonNumericVersion { token } => {
                let mut text = String::from_str("ABI3 version is not a number: ");
                text.append(token.as_str());
                text
            },
        }
    }
}

/// The interpreters on the host could not be enumerated.
#[derive(Clone, Debug, PartialEq, Eq)]
pub struct DiscoveryError {
    /// What the discovery reported.
    pub detail: String,
}

impl View for DiscoveryError {
    type V = Seq<char>;

    open spec fn view(&self) -> Seq<char> {
        self.detail@
    }
}

/// The text shown for a discovery failure with the given detail.
pub open spec fn discovery_message(detail: Seq<char>) -> Seq<char> {
    "interpreter discovery failed: "@ + detail
}

impl DiscoveryError {
    /// The text shown for this error.
    pub fn message(&self) -> (text: String)
        ensures
            text@ == discovery_message(self@),
    {
        let mut text = String::from_str("interpreter discovery failed: ");
        text.append(self.detail.as_str());
        text
    }
}

/// The build manifest could not be read or understood.
#[derive(Clone, Debug, PartialEq, Eq)]
pub struct ManifestError {
    /// What the manifest reader reported.
    pub detail: String,
}

impl View for ManifestError {
    type V = Seq<char>;

    open spec fn view(&self) -> Seq<char> {
        self.detail@
    }
}

/// The text shown for a manifest failure with the given detail.
pub open spec fn manifest_message(detail: Seq<char>) -> Seq<char> {
    "manifest could not be read: "@ + detail
}

impl ManifestError {
    /// The text shown for this error.
    pub fn message(&self) -> (text: String)
        ensures
            text@ == manifest_message(self@),
    {
        let mut text = String::from_str("manifest could not be read: ");
        text.append(self.detail.as_str());
        text
    }
}

/// The three steps of writing one wheel, in the order they are taken.
#[derive(Clone, Copy, Debug, PartialEq, Eq, Structural)]
pub enum PackagingStage {
    /// Opening a new archive for a tag.
    Create,
    /// Copying the artifact into the archive.
    Copy,
    /// Closing the archive.
    Finalize,
}

impl PackagingStage {
    /// How messages name this stage.
    pub open spec fn name(self) -> Seq<char> {
        match self {
            PackagingStage::Create => "archive creation"@,
            PackagingStage::Copy => "artifact copy"@,
            PackagingStage::Finalize => "archive finalization"@,
        }
    }

    /// How messages name this stage.
    pub fn label(&self) -> (text: &'static str)
        ensures
            text@ == self.name(),
    {
        match self {
            PackagingStage::Create => "archive creation",
            PackagingStage::Copy => "artifact copy",
            PackagingStage::Finalize => "archive finalization",
        }
    }
}

/// Writing a wheel failed.
#[derive(Clone, Debug, PartialEq, Eq)]
pub struct PackagingError {
    /// The step that failed.
    pub stage: PackagingStage,
    /// The position of the failed task in the task list.
    pub task: usize,
    /// The compatibility tag of the failed task.
    pub tag: String,
    /// What the wheel writer reported.
    pub detail: String,
}

/// The mathematical value of a [`PackagingError`].
pub struct PackagingErrorView {
    pub stage: PackagingStage,
    pub task: nat,
    pub tag: Seq<char>,
    pub detail: Seq<char>,
}

impl View for PackagingError {
    type V = PackagingErrorView;

    open spec fn view(&self) -> PackagingErrorView {
        PackagingErrorView {
            stage: self.stage,
            task: self.task as nat,
            tag: self.tag@,
            detail: self.detail@,
        }
    }
}

impl PackagingErrorView {
    /// The text shown for this error.
    pub open spec fn message(self) -> Seq<char> {
        self.stage.name() + " failed for wheel "@ + self.tag + ": "@ + self.detail
    }
}

impl PackagingError {
    /// The text shown for this error.
    pub fn message(&self) -> (text: String)
        ensures
            text@ == self@.message(),
    {
        let mut text = String::from_str(self.stage.label());
        text.append(" failed for wheel ");
        text.append(self.tag.as_str());
        text.append(": ");
        text.append(self.detail.as_str());
        text
    }
}

/// Any failure of a build.
#[derive(Clone, Debug, PartialEq, Eq)]
pub enum BuildError {
    Configuration(ConfigurationError),
    Discovery(DiscoveryError),
    Packaging(PackagingError),
    Manifest(ManifestError),
}

/// The mathematical value of a [`BuildError`].
pub enum BuildErrorView {
    Configuration(ConfigurationErrorView),
    Discovery(Seq<char>),
    Packaging(PackagingErrorView),
    Manifest(Seq<char>),
}

impl View for BuildError {
    type V = BuildErrorView;

    open spec fn view(&self) -> BuildErrorView {
        match self {
            BuildError::Configuration(e) => BuildErrorView::Configuration(e@),
            BuildError::Discovery(e) => BuildErrorView::Discovery(e@),
            BuildError::Packaging(e) => BuildErrorView::Packaging(e@),
            BuildError::Manifest(e) => BuildErrorView::Manifest(e@),
        }
    }
}

impl BuildErrorView {
    /// The text shown for this error: the kind of failure, then its own
    /// message.
    pub open spec fn message(self) -> Seq<char> {
        match self {
            BuildErrorView::Configuration(e) => "configuration error: "@ + e.message(),
            BuildErrorView::Discovery(detail) => "discovery error: "@ + discovery_message(detail),
            BuildErrorView::Packaging(e) => "packaging error: "@ + e.message(),
            BuildErrorView::Manifest(detail) => "manifest error: "@ + manifest_message(detail),
        }
    }
}

impl BuildError {
    /// The text shown for this error.
    pub fn message(&self) -> (text: String)
        ensures
            text@ == self@.message(),
    {
        match self {
            BuildError::Configuration(e) => {
                let mut text = String::from_str("configuration error: ");
                text.append(e.message().as_str());
                text
            },
            BuildError::Discovery(e) => {
                let mut text = String::from_str("discovery error: ");
                text.append(e.message().as_str());
                text
            },
            BuildError::Packaging(e) => {
                let mut text = String::from_str("packaging error: ");
                text.append(e.message().as_str());
                text
            },
            BuildError::Manifest(e) => {
                let mut text = String::from_str("manifest error: ");
                text.append(e.message().as_str());
                text
            },
        }
    }
}

} // verus!
