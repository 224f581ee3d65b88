//! `config get` and `config set`: what they print and what they save.

use vstd::prelude::*;
use crate::config::{Config, get_key_spec, with_key_spec};
use crate::error::{Result, is_config_error};

verus! {

/// The line `config get <key>` prints: the value, or `<unset>`.
pub fn get(cfg: &Config, key: &str) -> (r: Result<String>)
    ensures
        match get_key_spec(cfg@, key@) {
            Ok(Some(v)) => r matches Ok(line) && line@ == v,
            Ok(None) => r matches Ok(line) && line@ == "<unset>"@,
            Err(m) => r matches Err(e) && is_config_error(e, m),
        },
{
    match cfg.get_key(key) {
        Ok(Some(value)) => Ok(value),
        Ok(None) => Ok(String::from_str("<unset>")),
        Err(e) => Err(e),
    }
}

/// `config set <key> <value>`: the configuration to save and the line to
/// print (`<key> = <value>`).
pub fn set(cfg: Config, key: &str, value: &str) -> (r: Result<(Config, String)>)
    ensures
        match with_key_spec(cfg@, key@, value@) {
            Ok(v) => r matches Ok((c, line)) && c@ == v && line@ == key@ + " = "@ + value@,
            Err(m) => r matches Err(e) && is_config_error(e, m),
        },
{
    let updated = cfg.with_key(key, value)?;
    let mut line = String::from_str(key);
    line.append(" = ");
    line.append(value);
    Ok((updated, line))
}

} // verus!
