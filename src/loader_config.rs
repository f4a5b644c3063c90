//! The mod loader's settings file: which executable it injects into and how
//! long it waits. The file is read and written by the host; this module edits
//! the parsed settings.

use vstd::prelude::*;

verus! {

#[verifier::external_type_specification]
#[verifier::external_body]
pub struct ExIni(ini::Ini);

/// The first value of each key in the first section of each name, keyed by
/// (section, key): what `Ini::get_from` reads.
pub uninterp spec fn ini_contents(conf: ini::Ini) -> Map<(Seq<char>, Seq<char>), Seq<char>>;

/// Relies on `ini::Ini::set_to`: it finds or creates the section, and replaces
/// every value of the key there with the new one; nothing else changes.
#[verifier::external_body]
fn set_ini_value(conf: &mut ini::Ini, section: &str, key: &str, value: &str)
    ensures
        ini_contents(*final(conf)) == ini_contents(*old(conf)).insert((section@, key@), value@),
{
    conf.set_to(Some(section), key.to_string(), value.to_string())
}

/// The settings section the loader reads.
pub const LOADER_SECTION: &'static str = "Loader";

/// The key that names the executable the loader injects into, and its value.
pub const TARGET_KEY: &'static str = "target";

pub const TARGET_VALUE: &'static str = "GenshinImpact.exe";

/// The key of the loader's start delay, and the delay it is given.
pub const DELAY_KEY: &'static str = "delay";

pub const DELAY_VALUE: &'static str = "20";

/// Points the loader at the game executable.
pub fn set_loader_target(conf: &mut ini::Ini)
    ensures
        ini_contents(*final(conf)) == ini_contents(*old(conf)).insert(
            (LOADER_SECTION@, TARGET_KEY@),
            TARGET_VALUE@,
        ),
{
    set_ini_value(conf, LOADER_SECTION, TARGET_KEY, TARGET_VALUE);
}

/// Gives the loader its start delay.
pub fn set_loader_delay(conf: &mut ini::Ini)
    ensures
        ini_contents(*final(conf)) == ini_contents(*old(conf)).insert(
            (LOADER_SECTION@, DELAY_KEY@),
            DELAY_VALUE@,
        ),
{
    set_ini_value(conf, LOADER_SECTION, DELAY_KEY, DELAY_VALUE);
}

} // verus!
