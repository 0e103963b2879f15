//! Application configuration.

pub mod fe_templates;

use vstd::prelude::*;

use crate::helpers::text::chars_of;

verus! {

/// The run mode: the full admin panel, or the JSON API alone.
#[derive(Clone, Copy, Debug, PartialEq, Eq, Structural)]
pub enum AppMode {
    Full,
    Api,
}

/// The run mode named by the `APP_MODE` setting: `api` serves the JSON API alone; anything
/// else, or no setting, serves the full panel.
pub fn app_mode_from(setting: Option<&str>) -> (mode: AppMode)
    ensures
        mode == (if setting matches Some(s) && s@ == "api"@ {
            AppMode::Api
        } else {
            AppMode::Full
        }),
{
    match setting {
        Some(s) => {
            let c = chars_of(s);
            proof {
                reveal_strlit("api");
            }
            if c.len() == 3 && c[0] == 'a' && c[1] == 'p' && c[2] == 'i' {
                assert(s@ =~= "api"@);
                AppMode::Api
            } else {
                AppMode::Full
            }
        },
        None => AppMode::Full,
    }
}

} // verus!
