//! Application settings and where they are kept.
use vstd::prelude::*;
use vstd::string::*;

verus! {

/// The settings file's place under the per-user application data folder.
pub const RELATIVE_SAVE_PATH: &'static str = "spotick\\settings.json";

/// `true` for the characters that separate components of a Windows path.
pub open spec fn is_separator(c: char) -> bool {
    c == '\\' || c == '/'
}

/// The settings file under the application data folder `app_data`: the two joined by one
/// separator, none being added where `app_data` already ends with one.
pub open spec fn save_path_spec(app_data: Seq<char>) -> Seq<char> {
    if app_data.len() > 0 && is_separator(app_data.last()) {
        app_data + "spotick\\settings.json"@
    } else {
        app_data + "\\spotick\\settings.json"@
    }
}

/// The default place of the settings file, given the per-user application data folder.
pub fn get_default_save_path(app_data: &str) -> (r: String)
    ensures
        r@ == save_path_spec(app_data@),
{
    let mut path = app_data.to_owned();
    let n = app_data.unicode_len();
    let ends_with_separator = n > 0 && {
        let c = app_data.get_char(n - 1);
        c == '\\' || c == '/'
    };
    if !ends_with_separator {
        path.append("\\");
    }
    path.append(RELATIVE_SAVE_PATH);
    proof {
        reveal_strlit("\\");
        reveal_strlit("spotick\\settings.json");
        reveal_strlit("\\spotick\\settings.json");
        assert("\\"@ + "spotick\\settings.json"@ =~= "\\spotick\\settings.json"@);
    }
    path
}

/// Settings of type `S` together with the file that they are saved to.
pub struct AppSettings<S> {
    save_path: String,
    settings: S,
}

impl<S> AppSettings<S> {
    pub closed spec fn spec_save_path(&self) -> Seq<char> {
        self.save_path@
    }

    pub closed spec fn spec_settings(&self) -> S {
        self.settings
    }

    /// Settings with their default values, saved to the default place under `app_data`.
    pub fn default(app_data: &str) -> (r: AppSettings<S>)
        where
            S: Default,
        ensures
            r.spec_save_path() == save_path_spec(app_data@),
            call_ensures(S::default, (), r.spec_settings()),
    {
        let save_path = get_default_save_path(app_data);
        AppSettings::new(save_path)
    }

    /// Settings with their default values, saved to `save_path`.
    pub fn new(save_path: String) -> (r: AppSettings<S>)
        where
            S: Default,
        ensures
            r.spec_save_path() == save_path@,
            call_ensures(S::default, (), r.spec_settings()),
    {
        AppSettings { save_path, settings: S::default() }
    }

    pub fn get_settings(&self) -> (r: &S)
        ensures
            *r == self.spec_settings(),
    {
        &self.settings
    }

    pub fn get_settings_mut(&mut self) -> (r: &mut S)
        ensures
            *r == old(self).spec_settings(),
            final(self).spec_settings() == *final(r),
            final(self).spec_save_path() == old(self).spec_save_path(),
    {
        &mut self.settings
    }

    /// Replaces all settings, as loading them from the file does.
    pub fn set_settings(&mut self, settings: S)
        ensures
            final(self).spec_settings() == settings,
            final(self).spec_save_path() == old(self).spec_save_path(),
    {
        self.settings = settings;
    }

    /// The file that the settings are saved to.
    pub fn save_path(&self) -> (r: &str)
        ensures
            r@ == self.spec_save_path(),
    {
        self.save_path.as_str()
    }
}

} // verus!
