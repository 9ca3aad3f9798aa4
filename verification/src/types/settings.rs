//! Domain types and their mathematical views.
#![allow(unused_imports)]

use vstd::prelude::*;

use crate::model::{Duplicate, SameView, Plain, copy_plain_vec, same_plain_vec};

verus! {

/// File extensions a folder scan picks up.
#[derive(Clone, Copy, Debug, PartialEq, Eq, PartialOrd, Ord, Structural)]
pub enum VideoExtension {
    Mp4,
    Mkv,
    Avi,
    Wmv,
}

impl View for VideoExtension {
    type V = VideoExtension;

    open spec fn view(&self) -> VideoExtension {
        *self
    }
}

impl Duplicate for VideoExtension {
    fn duplicate(&self) -> (copy: Self) {
        *self
    }
}

impl SameView for VideoExtension {
    fn same_view(&self, other: &Self) -> (same: bool) {
        *self == *other
    }
}

impl Plain for VideoExtension {
    proof fn lemma_view_is_self(&self) {
    }
}

/// Default output placement for new queue items.
#[derive(Clone, Copy, Debug, PartialEq, Eq, Structural)]
pub enum DefaultOutputMode {
    Replace,
    Suffix,
    SeparateFolder,
}

impl View for DefaultOutputMode {
    type V = DefaultOutputMode;

    open spec fn view(&self) -> DefaultOutputMode {
        *self
    }
}

impl Duplicate for DefaultOutputMode {
    fn duplicate(&self) -> (copy: Self) {
        *self
    }
}

impl SameView for DefaultOutputMode {
    fn same_view(&self, other: &Self) -> (same: bool) {
        *self == *other
    }
}

impl Plain for DefaultOutputMode {
    proof fn lemma_view_is_self(&self) {
    }
}

/// Output defaults.
#[derive(Clone, Debug, PartialEq, Eq)]
pub struct OutputSettings {
    pub default_mode: DefaultOutputMode,
    pub suffix: String,
    pub separate_folder: Option<String>,
    pub overwrite_existing: bool,
}

/// The mathematical value of a [`OutputSettings`].
pub struct OutputSettingsView {
    pub default_mode: DefaultOutputMode,
    pub suffix: Seq<char>,
    pub separate_folder: Option<Seq<char>>,
    pub overwrite_existing: bool,
}

impl View for OutputSettings {
    type V = OutputSettingsView;

    open spec fn view(&self) -> OutputSettingsView {
        OutputSettingsView {
            default_mode: self.default_mode,
            suffix: self.suffix@,
            separate_folder: match self.separate_folder { Some(x) => Some(x@), None => None },
            overwrite_existing: self.overwrite_existing,
        }
    }
}

impl Duplicate for OutputSettings {
    fn duplicate(&self) -> (copy: Self) {
        OutputSettings {
            default_mode: self.default_mode,
            suffix: self.suffix.clone(),
            separate_folder: match &self.separate_folder { Some(x) => Some(x.clone()), None => None },
            overwrite_existing: self.overwrite_existing,
        }
    }
}

impl SameView for OutputSettings {
    fn same_view(&self, other: &Self) -> (same: bool) {
        (self.default_mode == other.default_mode)
            && (self.suffix.same_view(&other.suffix))
            && (match (&self.separate_folder, &other.separate_folder) { (Some(x), Some(y)) => (*x).same_view(&(*y)), (None, None) => true, _ => false })
            && (self.overwrite_existing == other.overwrite_existing)
    }
}

/// Privacy switches.
#[derive(Clone, Copy, Debug, PartialEq, Eq, Structural)]
pub struct PrivacySettings {
    pub anonymize_logs: bool,
    pub anonymize_history: bool,
}

impl View for PrivacySettings {
    type V = PrivacySettings;

    open spec fn view(&self) -> PrivacySettings {
        *self
    }
}

impl Duplicate for PrivacySettings {
    fn duplicate(&self) -> (copy: Self) {
        *self
    }
}

impl SameView for PrivacySettings {
    fn same_view(&self, other: &Self) -> (same: bool) {
        *self == *other
    }
}

impl Plain for PrivacySettings {
    proof fn lemma_view_is_self(&self) {
    }
}

/// User settings.
#[derive(Clone, Debug, PartialEq, Eq)]
pub struct Settings {
    pub last_input_folder: Option<String>,
    /// Extensions a scan picks up; no extension twice.
    pub scan_extensions: Vec<VideoExtension>,
    pub output: OutputSettings,
    pub hardware_decode: bool,
    pub privacy: PrivacySettings,
    pub log_folder: Option<String>,
}

/// The mathematical value of a [`Settings`].
pub struct SettingsView {
    pub last_input_folder: Option<Seq<char>>,
    pub scan_extensions: Seq<VideoExtension>,
    pub output: OutputSettingsView,
    pub hardware_decode: bool,
    pub privacy: PrivacySettings,
    pub log_folder: Option<Seq<char>>,
}

impl View for Settings {
    type V = SettingsView;

    open spec fn view(&self) -> SettingsView {
        SettingsView {
            last_input_folder: match self.last_input_folder { Some(x) => Some(x@), None => None },
            scan_extensions: self.scan_extensions@,
            output: self.output@,
            hardware_decode: self.hardware_decode,
            privacy: self.privacy,
            log_folder: match self.log_folder { Some(x) => Some(x@), None => None },
        }
    }
}

impl Duplicate for Settings {
    fn duplicate(&self) -> (copy: Self) {
        Settings {
            last_input_folder: match &self.last_input_folder { Some(x) => Some(x.clone()), None => None },
            scan_extensions: copy_plain_vec(&self.scan_extensions),
            output: self.output.duplicate(),
            hardware_decode: self.hardware_decode,
            privacy: self.privacy,
            log_folder: match &self.log_folder { Some(x) => Some(x.clone()), None => None },
        }
    }
}

impl SameView for Settings {
    fn same_view(&self, other: &Self) -> (same: bool) {
        (match (&self.last_input_folder, &other.last_input_folder) { (Some(x), Some(y)) => (*x).same_view(&(*y)), (None, None) => true, _ => false })
            && (same_plain_vec(&self.scan_extensions, &other.scan_extensions))
            && (self.output.same_view(&other.output))
            && (self.hardware_decode == other.hardware_decode)
            && (self.privacy == other.privacy)
            && (match (&self.log_folder, &other.log_folder) { (Some(x), Some(y)) => (*x).same_view(&(*y)), (None, None) => true, _ => false })
    }
}

} // verus!
