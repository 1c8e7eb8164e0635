//! The application's configuration: where it keeps data, its theme, and
//! the device code and app password that authenticate it.
//!
//! Reading and writing the configuration file is the caller's part; this
//! module holds the values and the operations on them.

use std::path::PathBuf;
use vstd::prelude::*;
use crate::types::DeviceCode;

verus! {

/// `std::path::PathBuf`, carried opaquely.
#[verifier::external_type_specification]
#[verifier::external_body]
pub struct ExPathBuf(PathBuf);

/// `PathBuf::clone` copies the path. Nothing is stated of the opaque
/// result.
pub assume_specification[ <PathBuf as Clone>::clone ](p: &PathBuf) -> PathBuf;

/// The application's configuration.
#[derive(Debug, Clone)]
pub struct AppConfig {
    /// Directory of the application's data.
    pub data_dir: PathBuf,
    /// Name of the colour theme.
    pub theme: String,
    /// Whether changes are saved automatically.
    pub auto_save: bool,
    /// The device code, once one is known.
    pub device_code: Option<String>,
    /// The app password, where one is configured.
    pub app_password: Option<String>,
}

/// The configuration with its strings taken as character sequences.
pub struct AppConfigView {
    pub data_dir: PathBuf,
    pub theme: Seq<char>,
    pub auto_save: bool,
    pub device_code: Option<Seq<char>>,
    pub app_password: Option<Seq<char>>,
}

/// An optional string as an optional character sequence.
pub open spec fn opt_view(s: Option<String>) -> Option<Seq<char>> {
    match s {
        Some(v) => Some(v@),
        None => None,
    }
}

impl View for AppConfig {
    type V = AppConfigView;

    open spec fn view(&self) -> AppConfigView {
        AppConfigView {
            data_dir: self.data_dir,
            theme: self.theme@,
            auto_save: self.auto_save,
            device_code: opt_view(self.device_code),
            app_password: opt_view(self.app_password),
        }
    }
}

/// The device code of a configuration.
pub open spec fn config_device_code(c: AppConfigView) -> Option<Seq<char>> {
    c.device_code
}

/// `c` with its device code replaced by `code`.
pub open spec fn with_device_code(c: AppConfigView, code: Option<Seq<char>>) -> AppConfigView {
    AppConfigView { device_code: code, ..c }
}

impl AppConfig {
    /// The default configuration for the data directory `data_dir`: the
    /// `default` theme, automatic saving, and neither device code nor app
    /// password.
    pub fn with_data_dir(data_dir: PathBuf) -> (r: Self)
        ensures
            r.data_dir == data_dir,
            r@.theme == "default"@,
            r.auto_save,
            r.device_code is None,
            r.app_password is None,
    {
        AppConfig {
            data_dir,
            theme: "default".to_owned(),
            auto_save: true,
            device_code: None,
            app_password: None,
        }
    }

    /// The device code, if one is configured.
    pub fn get_device_code(&self) -> (r: Option<DeviceCode>)
        ensures
            match r {
                Some(d) => config_device_code(self@) == Some(d@),
                None => config_device_code(self@) is None,
            },
    {
        match &self.device_code {
            Some(code) => Some(DeviceCode::from(code.clone())),
            None => None,
        }
    }

    /// Configures the device code. Saving the configuration afterwards is
    /// the caller's part.
    pub fn set_device_code(&mut self, device_code: DeviceCode)
        ensures
            final(self)@ == with_device_code(old(self)@, Some(device_code@)),
    {
        self.device_code = Some(device_code.as_str().to_owned());
    }

    /// Removes the device code. Saving the configuration afterwards is the
    /// caller's part.
    pub fn clear_device_code(&mut self)
        ensures
            final(self)@ == with_device_code(old(self)@, None),
    {
        self.device_code = None;
    }

    /// Whether a device code is configured.
    pub fn has_device_code(&self) -> (r: bool)
        ensures
            r == config_device_code(self@) is Some,
    {
        self.device_code.is_some()
    }

    /// The app password, if one is configured.
    pub fn get_app_password(&self) -> (r: Option<&str>)
        ensures
            match r {
                Some(p) => self@.app_password == Some(p@),
                None => self@.app_password is None,
            },
    {
        match &self.app_password {
            Some(p) => Some(p.as_str()),
            None => None,
        }
    }

    /// Whether an app password is configured.
    pub fn has_app_password(&self) -> (r: bool)
        ensures
            r == self@.app_password is Some,
    {
        self.app_password.is_some()
    }
}

/// Setting a device code and then reading it gives back the code that was
/// set, and a device code is then configured; clearing it leaves none. No
/// other setting changes.
pub proof fn lemma_device_code_round_trip(c: AppConfigView, code: Seq<char>)
    ensures
        config_device_code(with_device_code(c, Some(code))) == Some(code),
        config_device_code(with_device_code(c, Some(code))) is Some,
        config_device_code(with_device_code(c, None)) is None,
        with_device_code(with_device_code(c, Some(code)), None) == with_device_code(c, None),
        with_device_code(c, Some(code)).app_password == c.app_password,
        with_device_code(c, Some(code)).theme == c.theme,
{
}

} // verus!
