//! User settings: defaults and validation.

use vstd::prelude::*;

use crate::text::{is_blank, is_blank_text, is_empty_text};
use crate::{
    DefaultOutputMode, OutputSettings, OutputSettingsView, PrivacySettings, Settings,
    SettingsView, VideoExtension,
};

verus! {

/// Default suffix appended to converted files in suffix mode.
pub open spec fn default_suffix() -> Seq<char> {
    "_av1"@
}

/// The default output settings: replace in place, `_av1` suffix
/// remembered, no separate folder, no overwrite.
pub open spec fn default_output_settings() -> OutputSettingsView {
    OutputSettingsView {
        default_mode: DefaultOutputMode::Replace,
        suffix: default_suffix(),
        separate_folder: None,
        overwrite_existing: false,
    }
}

/// The default settings: every video extension, default output, hardware
/// decode on, privacy switches off.
pub open spec fn default_settings() -> SettingsView {
    SettingsView {
        last_input_folder: None,
        scan_extensions: seq![VideoExtension::Mp4, VideoExtension::Mkv, VideoExtension::Avi, VideoExtension::Wmv],
        output: default_output_settings(),
        hardware_decode: true,
        privacy: PrivacySettings { anonymize_logs: false, anonymize_history: false },
        log_folder: None,
    }
}

impl Default for OutputSettings {
    fn default() -> (settings: Self)
        ensures
            settings@ == default_output_settings(),
    {
        let suffix = String::from_str("_av1");
        OutputSettings {
            default_mode: DefaultOutputMode::Replace,
            suffix,
            separate_folder: None,
            overwrite_existing: false,
        }
    }
}

impl Default for Settings {
    fn default() -> (settings: Self)
        ensures
            settings@ == default_settings(),
    {
        let mut scan_extensions: Vec<VideoExtension> = Vec::new();
        scan_extensions.push(VideoExtension::Mp4);
        scan_extensions.push(VideoExtension::Mkv);
        scan_extensions.push(VideoExtension::Avi);
        scan_extensions.push(VideoExtension::Wmv);
        assert(scan_extensions@ =~= seq![VideoExtension::Mp4, VideoExtension::Mkv, VideoExtension::Avi, VideoExtension::Wmv]);
        Settings {
            last_input_folder: None,
            scan_extensions,
            output: OutputSettings::default(),
            hardware_decode: true,
            privacy: PrivacySettings { anonymize_logs: false, anonymize_history: false },
            log_folder: None,
        }
    }
}

/// Suffix mode needs a suffix that is not blank; separate-folder mode needs
/// a non-empty folder.
pub open spec fn settings_validation(settings: SettingsView) -> Result<(), &'static str> {
    if settings.output.default_mode == DefaultOutputMode::Suffix && is_blank(settings.output.suffix) {
        Err("default output suffix must not be empty in suffix mode")
    } else if settings.output.default_mode == DefaultOutputMode::SeparateFolder && match settings.output.separate_folder {
        None => true,
        Some(folder) => folder.len() == 0,
    } {
        Err("default separate output folder is required in separate-folder mode")
    } else {
        Ok(())
    }
}

impl Settings {
    /// Suffix mode needs a suffix that is not blank; separate-folder mode
    /// needs a non-empty folder. Inactive values stay remembered.
    pub fn validate(&self) -> (result: Result<(), &'static str>)
        ensures
            result == settings_validation(self@),
    {
        if self.output.default_mode == DefaultOutputMode::Suffix && is_blank_text(&self.output.suffix) {
            return Err("default output suffix must not be empty in suffix mode");
        }
        if self.output.default_mode == DefaultOutputMode::SeparateFolder {
            let missing = match &self.output.separate_folder {
                None => true,
                Some(folder) => is_empty_text(folder),
            };
            if missing {
                return Err("default separate output folder is required in separate-folder mode");
            }
        }
        Ok(())
    }
}


impl Default for PrivacySettings {
    /// Both privacy switches off.
    fn default() -> (privacy: Self)
        ensures
            privacy == (PrivacySettings { anonymize_logs: false, anonymize_history: false }),
    {
        PrivacySettings { anonymize_logs: false, anonymize_history: false }
    }
}

} // verus!
