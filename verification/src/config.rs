//! Configuration: the root config type and the config types it names, the
//! registers that build values from a config, and the choice of where and
//! in which format a service's configuration is read.
pub mod discover;
pub mod layer;
pub mod middleware;
pub mod registry;
pub mod service;
mod private;

use crate::text::{str_chars, string_from_chars};
use std::marker::PhantomData;
use vstd::prelude::*;

verus! {

/// The root config type: the traits of this module give its config types.
pub struct Config;

/// A type that can be a configuration (implemented for every cloneable type;
/// reading it from a file is the job of its serde counterpart).
pub trait ConfigType: private::Sealed {}

impl<T: Clone> private::Sealed for T {}

impl<T: private::Sealed> ConfigType for T {}

/// Builds a value of type `T` from a configuration of type `C`, with the
/// function it was made with, anew at each call.
#[verifier::reject_recursive_types(C)]
#[verifier::reject_recursive_types(T)]
pub struct Register<C, T, F: Fn(&C) -> T> {
    make: F,
    _data: PhantomData<(C, T)>,
}

impl<C, T, F: Fn(&C) -> T> Register<C, T, F> {
    /// The function values are built with.
    pub closed spec fn maker(&self) -> F {
        self.make
    }

    /// A register that builds a new value at each call of `register`.
    pub fn factory(f: F) -> (r: Self)
        ensures
            r.maker() == f,
    {
        Register { make: f, _data: PhantomData }
    }

    /// Builds a value from the configuration.
    pub fn register(&self, conf: &C) -> (r: T)
        requires
            call_requires(self.maker(), (conf,)),
        ensures
            call_ensures(self.maker(), (conf,), r),
    {
        (self.make)(conf)
    }
}

/// The format of a configuration text.
#[derive(Clone, Copy, Debug, PartialEq, Eq, Structural)]
pub enum ConfigFormat {
    Toml,
    Json,
    Yaml,
}

/// Where the configuration of a service is read from.
#[derive(Clone, Copy, Debug, PartialEq, Eq, Structural)]
pub enum ConfigSource {
    /// A file, or a directory holding one file per service domain.
    File,
    /// An Apollo configuration center.
    Apollo,
}

/// The lower-case form of an ASCII letter; other characters stay.
pub open spec fn ascii_lower(c: char) -> char {
    if 65 <= (c as u32) <= 90 {
        ((c as u32) + 32) as char
    } else {
        c
    }
}

/// `s` names the lower-case word `w` in any case. For the ASCII words this
/// module compares with, this is the same as `s.to_lowercase() == w`: no
/// other character lower-cases to one of their letters.
pub open spec fn names_word(s: Seq<char>, w: Seq<char>) -> bool {
    s.len() == w.len() && forall|i: int| 0 <= i < s.len() ==> ascii_lower(#[trigger] s[i]) == w[i]
}

pub open spec fn toml_word() -> Seq<char> {
    seq!['t', 'o', 'm', 'l']
}

pub open spec fn json_word() -> Seq<char> {
    seq!['j', 's', 'o', 'n']
}

pub open spec fn file_word() -> Seq<char> {
    seq!['f', 'i', 'l', 'e']
}

pub open spec fn apollo_word() -> Seq<char> {
    seq!['a', 'p', 'o', 'l', 'l', 'o']
}

/// Whether `s` names the lower-case word `w` in any case.
fn chars_name_word(s: &[char], w: &[char]) -> (r: bool)
    ensures
        r == names_word(s@, w@),
{
    if s.len() != w.len() {
        return false;
    }
    let mut i: usize = 0;
    while i < s.len()
        invariant
            s@.len() == w@.len(),
            i <= s@.len(),
            forall|k: int| 0 <= k < i ==> ascii_lower(#[trigger] s@[k]) == w@[k],
        decreases s@.len() - i,
    {
        let c = s[i];
        let u: u32 = c as u32;
        let lower: char = if 65 <= u && u <= 90 {
            ((u + 32) as u8) as char
        } else {
            c
        };
        assert(lower == ascii_lower(c)) by {
            if 65 <= u && u <= 90 {
                assert(((u + 32) as u8) as char == ((u + 32) as char));
            }
        };
        if lower != w[i] {
            return false;
        }
        i = i + 1;
    }
    true
}

/// The format a configuration type name stands for, in any case: `toml`,
/// `json`, and anything else YAML.
pub open spec fn config_format_of(typ: Seq<char>) -> ConfigFormat {
    if names_word(typ, toml_word()) {
        ConfigFormat::Toml
    } else if names_word(typ, json_word()) {
        ConfigFormat::Json
    } else {
        ConfigFormat::Yaml
    }
}

/// The format a configuration type name stands for.
pub fn parse_config_type(typ: &str) -> (r: ConfigFormat)
    ensures
        r == config_format_of(typ@),
{
    let c = str_chars(typ);
    let toml = vec!['t', 'o', 'm', 'l'];
    let json = vec!['j', 's', 'o', 'n'];
    assert(toml@ =~= toml_word());
    assert(json@ =~= json_word());
    if chars_name_word(c.as_slice(), toml.as_slice()) {
        ConfigFormat::Toml
    } else if chars_name_word(c.as_slice(), json.as_slice()) {
        ConfigFormat::Json
    } else {
        ConfigFormat::Yaml
    }
}

/// The source a configuration source name stands for, in any case: `file` or
/// `apollo`; any other name is not supported.
pub open spec fn config_source_of(typ: Seq<char>) -> Option<ConfigSource> {
    if names_word(typ, file_word()) {
        Some(ConfigSource::File)
    } else if names_word(typ, apollo_word()) {
        Some(ConfigSource::Apollo)
    } else {
        None
    }
}

fn source_named(typ: &str) -> (r: Option<ConfigSource>)
    ensures
        r == config_source_of(typ@),
{
    let c = str_chars(typ);
    let file = vec!['f', 'i', 'l', 'e'];
    let apollo = vec!['a', 'p', 'o', 'l', 'l', 'o'];
    assert(file@ =~= file_word());
    assert(apollo@ =~= apollo_word());
    if chars_name_word(c.as_slice(), file.as_slice()) {
        Some(ConfigSource::File)
    } else if chars_name_word(c.as_slice(), apollo.as_slice()) {
        Some(ConfigSource::Apollo)
    } else {
        None
    }
}

/// Whether a configuration source name names a supported source.
pub fn config_source_supported(typ: &str) -> (r: bool)
    ensures
        r == config_source_of(typ@) is Some,
{
    source_named(typ).is_some()
}

/// The source a supported configuration source name stands for (reading the
/// configuration from an unsupported source is a programming error).
pub fn config_source(typ: &str) -> (r: ConfigSource)
    requires
        config_source_of(typ@) is Some,
    ensures
        config_source_of(typ@) == Some(r),
{
    match source_named(typ) {
        Some(s) => s,
        None => ConfigSource::File,
    }
}

/// The name of the file that holds the configuration of a service domain in
/// a configuration directory: `<domain>.<filetype>`.
pub fn domain_config_file(domain: &str, filetype: &str) -> (r: String)
    ensures
        r@ == domain@ + seq!['.'] + filetype@,
{
    let mut v = str_chars(domain);
    v.push('.');
    let ext = str_chars(filetype);
    let mut i: usize = 0;
    let ghost start = v@;
    while i < ext.len()
        invariant
            i <= ext@.len(),
            v@ == start + ext@.take(i as int),
        decreases ext@.len() - i,
    {
        v.push(ext[i]);
        i = i + 1;
        assert(v@ =~= start + ext@.take(i as int));
    }
    assert(ext@.take(ext@.len() as int) =~= ext@);
    string_from_chars(v.as_slice())
}

} // verus!
