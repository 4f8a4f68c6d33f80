//! Where the settings are kept and what can go wrong with them.

use vstd::prelude::*;
use vstd::string::StringExecFns;

verus! {

/// The directory, under the configuration directory, that holds the settings.
pub const APP_SETTINGS_DIR: &'static str = "SnapParse";

/// The name of the file that holds the settings.
pub const SETTINGS_FILE_NAME: &'static str = "settings.json";

/// Why the settings could not be read or written.
#[derive(Debug)]
pub enum SettingsStoreError {
    LockPoisoned,
    Io(String),
    Serde(String),
}

impl SettingsStoreError {
    /// The text of the message, as a sequence of characters.
    pub open spec fn message_text(self) -> Seq<char> {
        match self {
            SettingsStoreError::LockPoisoned => "failed to lock settings store"@,
            SettingsStoreError::Io(detail) => "failed to read/write settings file: "@ + detail@,
            SettingsStoreError::Serde(detail) => "failed to serialize or deserialize settings: "@
                + detail@,
        }
    }

    /// The message to show for this error.
    pub fn message(&self) -> (text: String)
        ensures
            text@ == self.message_text(),
    {
        match self {
            SettingsStoreError::LockPoisoned => "failed to lock settings store".to_owned(),
            SettingsStoreError::Io(detail) => {
                let mut text = "failed to read/write settings file: ".to_owned();
                text.append(detail.as_str());
                text
            },
            SettingsStoreError::Serde(detail) => {
                let mut text = "failed to serialize or deserialize settings: ".to_owned();
                text.append(detail.as_str());
                text
            },
        }
    }
}

} // verus!
