//! The validated run configuration: addresses, init code, search sizes and
//! the pattern rules, together with its validation rules and accessors.

use vstd::prelude::*;
use vstd::pervasive::unreached;
use vstd::string::StrSliceExecFns;
use vstd::string::StringExecFns;
use vstd::string::StringSliceAdditionalSpecFns;
use crate::addresses::{parse_address, spec_valid_address_string, Address};
use crate::hexcodec::{hex_decode, hex_decode_chars, is_hex_char};
use crate::pattern::PatternRule;
use crate::strutil::{is_char_prefix, str_has_prefix};

verus! {

#[verifier::external_type_specification]
#[verifier::external_body]
pub struct ExValue(serde_json::Value);

pub const DEFAULT_BATCH_SIZE: usize = 10000;

pub const DEFAULT_THREADS: usize = 8;

/// The run configuration. The contract ABI is carried along unread; every
/// other field is validated before the search starts.
pub struct Config {
    pub abi: serde_json::Value,
    pub bytecode: String,
    pub operator: String,
    pub create2: String,
    pub entrypoint: String,
    pub rpc: String,
    pub batch_size: Option<usize>,
    pub threads: Option<usize>,
    pub rules: Vec<PatternRule>,
}

/// A fatal configuration fault. Every variant is reported before any worker
/// is spawned.
#[derive(Debug)]
pub enum ConfigError {
    FileError(String),
    JsonError(String),
    InvalidOperator(String),
    InvalidCreate2(String),
    InvalidEntryPoint(String),
    InvalidBytecode,
    InvalidRPC,
    NoRules,
    InvalidRule,
    InvalidThreads,
}

impl Config {
    /// The operator address string is `0x` plus forty hex digits.
    pub open spec fn spec_operator_ok(&self) -> bool {
        spec_valid_address_string(self.operator@)
    }

    /// The deployment-factory address string is `0x` plus forty hex digits.
    pub open spec fn spec_create2_ok(&self) -> bool {
        spec_valid_address_string(self.create2@)
    }

    /// The entry-point address string is `0x` plus forty hex digits.
    pub open spec fn spec_entrypoint_ok(&self) -> bool {
        spec_valid_address_string(self.entrypoint@)
    }

    /// The bytecode string is nonempty and `0x`-prefixed.
    pub open spec fn spec_bytecode_ok(&self) -> bool {
        self.bytecode@.len() > 0 && is_char_prefix("0x"@, self.bytecode@)
    }

    /// The endpoint string starts with `http` and is at least ten bytes.
    pub open spec fn spec_rpc_ok(&self) -> bool {
        is_char_prefix("http"@, self.rpc@) && vstd::utf8::encode_utf8(self.rpc@).len() >= 10
    }

    /// Every rule names a nonempty prefix and a nonempty suffix.
    pub open spec fn spec_rules_ok(&self) -> bool {
        forall|j: int|
            0 <= j < self.rules@.len() ==> ((#[trigger] self.rules@[j]).start_with@.len() > 0
                && self.rules@[j].end_with@.len() > 0)
    }

    /// Everything `validate` checks, together.
    pub open spec fn spec_is_valid(&self) -> bool {
        self.spec_operator_ok() && self.spec_create2_ok() && self.spec_entrypoint_ok()
            && self.spec_bytecode_ok() && self.spec_rpc_ok() && self.rules@.len() > 0
            && self.spec_rules_ok()
    }

    /// Checks each field in order and reports the first fault; succeeds
    /// exactly on a fully valid configuration.
    #[verifier::loop_isolation(false)]
    pub fn validate(&self) -> (r: Result<(), ConfigError>)
        ensures
            r is Ok <==> self.spec_is_valid(),
            !self.spec_operator_ok() ==> (r matches Err(ConfigError::InvalidOperator(s)) && s@
                == self.operator@),
            self.spec_operator_ok() && !self.spec_create2_ok() ==> (r matches Err(
                ConfigError::InvalidCreate2(s),
            ) && s@ == self.create2@),
            self.spec_operator_ok() && self.spec_create2_ok() && !self.spec_entrypoint_ok() ==> (
            r matches Err(ConfigError::InvalidEntryPoint(s)) && s@ == self.entrypoint@),
            self.spec_operator_ok() && self.spec_create2_ok() && self.spec_entrypoint_ok()
                && !self.spec_bytecode_ok() ==> r matches Err(ConfigError::InvalidBytecode),
            self.spec_operator_ok() && self.spec_create2_ok() && self.spec_entrypoint_ok()
                && self.spec_bytecode_ok() && !self.spec_rpc_ok() ==> r matches Err(
                ConfigError::InvalidRPC,
            ),
            self.spec_operator_ok() && self.spec_create2_ok() && self.spec_entrypoint_ok()
                && self.spec_bytecode_ok() && self.spec_rpc_ok() && self.rules@.len() == 0
                ==> r matches Err(ConfigError::NoRules),
            self.spec_operator_ok() && self.spec_create2_ok() && self.spec_entrypoint_ok()
                && self.spec_bytecode_ok() && self.spec_rpc_ok() && self.rules@.len() > 0
                && !self.spec_rules_ok() ==> r matches Err(ConfigError::InvalidRule),
    {
        if !is_well_formed_address(self.operator.as_str()) {
            return Err(ConfigError::InvalidOperator(self.operator.clone()));
        }
        if !is_well_formed_address(self.create2.as_str()) {
            return Err(ConfigError::InvalidCreate2(self.create2.clone()));
        }
        if !is_well_formed_address(self.entrypoint.as_str()) {
            return Err(ConfigError::InvalidEntryPoint(self.entrypoint.clone()));
        }
        if self.bytecode.as_str().is_empty() || !str_has_prefix(self.bytecode.as_str(), "0x") {
            return Err(ConfigError::InvalidBytecode);
        }
        let rpc_bytes = self.rpc.as_str().as_bytes();
        proof {
            assert(rpc_bytes@ == vstd::utf8::encode_utf8(self.rpc@));
        }
        if !str_has_prefix(self.rpc.as_str(), "http") || rpc_bytes.len() < 10 {
            return Err(ConfigError::InvalidRPC);
        }
        if self.rules.len() == 0 {
            return Err(ConfigError::NoRules);
        }
        let mut i: usize = 0;
        while i < self.rules.len()
            invariant
                i <= self.rules@.len(),
                forall|j: int|
                    0 <= j < i ==> ((#[trigger] self.rules@[j]).start_with@.len() > 0
                        && self.rules@[j].end_with@.len() > 0),
            decreases self.rules@.len() - i,
        {
            if self.rules[i].start_with.as_str().is_empty() || self.rules[i].end_with.as_str().is_empty() {
                return Err(ConfigError::InvalidRule);
            }
            i = i + 1;
        }
        Ok(())
    }

    /// The entry-point and operator addresses as bytes, in that order.
    pub fn get_args_addresses(&self) -> (r: (Address, Address))
        requires
            self.spec_operator_ok(),
            self.spec_entrypoint_ok(),
        ensures
            r.0@ == hex_decode_chars(self.entrypoint@.subrange(2, 42)),
            r.1@ == hex_decode_chars(self.operator@.subrange(2, 42)),
    {
        let operator = match parse_address(self.operator.as_str()) {
            Some(a) => a,
            None => unreached(),
        };
        let entrypoint = match parse_address(self.entrypoint.as_str()) {
            Some(a) => a,
            None => unreached(),
        };
        (entrypoint, operator)
    }

    /// The deployer address used in address derivation: the operator's bytes.
    pub fn get_create2_address(&self) -> (r: Address)
        requires
            self.spec_operator_ok(),
        ensures
            r@ == hex_decode_chars(self.operator@.subrange(2, 42)),
    {
        match parse_address(self.operator.as_str()) {
            Some(a) => a,
            None => unreached(),
        }
    }

    /// The configured batch size, or the default where none is set.
    pub fn get_batch_size(&self) -> (r: usize)
        ensures
            r == (match self.batch_size {
                Option::Some(b) => b,
                Option::None => DEFAULT_BATCH_SIZE,
            }),
    {
        self.batch_size.unwrap_or(DEFAULT_BATCH_SIZE)
    }

    /// The configured thread count, or the default where none is set.
    pub fn get_threads(&self) -> (r: usize)
        ensures
            r == (match self.threads {
                Option::Some(t) => t,
                Option::None => DEFAULT_THREADS,
            }),
    {
        self.threads.unwrap_or(DEFAULT_THREADS)
    }
}

/// Tests that a string is `0x` followed by exactly forty hex digits.
pub fn is_well_formed_address(s: &str) -> (r: bool)
    ensures
        r == spec_valid_address_string(s@),
{
    let n = s.unicode_len();
    if n != 42 {
        return false;
    }
    if s.get_char(0) != '0' || s.get_char(1) != 'x' {
        return false;
    }
    match parse_address(s) {
        Some(_) => true,
        None => false,
    }
}

/// The string with every leading `0x` removed, as str::trim_start_matches
/// leaves it.
pub open spec fn spec_strip_hex_prefixes(s: Seq<char>) -> Seq<char>
    decreases s.len(),
{
    if s.len() >= 2 && s[0] == '0' && s[1] == 'x' {
        spec_strip_hex_prefixes(s.subrange(2, s.len() as int))
    } else {
        s
    }
}

/// Removes every leading `0x` from the string.
fn strip_0x_prefixes(s: &str) -> (r: &str)
    ensures
        r@ == spec_strip_hex_prefixes(s@),
{
    let mut t: &str = s;
    loop
        invariant
            spec_strip_hex_prefixes(t@) == spec_strip_hex_prefixes(s@),
        ensures
            t@ == spec_strip_hex_prefixes(s@),
        decreases t@.len(),
    {
        let n = t.unicode_len();
        if n >= 2 && t.get_char(0) == '0' && t.get_char(1) == 'x' {
            t = t.substring_char(2, n);
        } else {
            proof {
                assert(spec_strip_hex_prefixes(t@) == t@);
            }
            break;
        }
    }
    t
}

/// Decodes the `0x`-prefixed bytecode string into the init-code bytes;
/// rejects anything that is not hex after the prefix.
pub fn parse_init_code(bytecode: &str) -> (r: Result<Vec<u8>, ConfigError>)
    ensures
        r is Ok <==> (spec_strip_hex_prefixes(bytecode@).len() % 2 == 0 && forall|i: int|
            0 <= i < spec_strip_hex_prefixes(bytecode@).len() ==> is_hex_char(
                #[trigger] spec_strip_hex_prefixes(bytecode@)[i],
            )),
        r matches Ok(v) ==> v@ == hex_decode_chars(spec_strip_hex_prefixes(bytecode@)),
        r is Err ==> r matches Err(ConfigError::InvalidBytecode),
{
    let stripped = strip_0x_prefixes(bytecode);
    match hex_decode(stripped) {
        Some(v) => Ok(v),
        None => Err(ConfigError::InvalidBytecode),
    }
}

impl ConfigError {
    /// The message text for each fault, matching the reported wording.
    pub fn message(&self) -> (r: String)
        ensures
            r@ == self.spec_message(),
    {
        match self {
            ConfigError::FileError(s) => {
                let mut m = String::from_str("Failed to read config file: ");
                m.append(s.as_str());
                m
            },
            ConfigError::JsonError(s) => {
                let mut m = String::from_str("Failed to parse JSON: ");
                m.append(s.as_str());
                m
            },
            ConfigError::InvalidOperator(s) => {
                let mut m = String::from_str("Invalid operator address: ");
                m.append(s.as_str());
                m
            },
            ConfigError::InvalidCreate2(s) => {
                let mut m = String::from_str("Invalid create2 address: ");
                m.append(s.as_str());
                m
            },
            ConfigError::InvalidEntryPoint(s) => {
                let mut m = String::from_str("Invalid entry point address: ");
                m.append(s.as_str());
                m
            },
            ConfigError::InvalidBytecode => String::from_str("Bytecode is empty or invalid"),
            ConfigError::InvalidRPC => String::from_str("Invalid RPC URL"),
            ConfigError::NoRules => String::from_str("No pattern rules defined"),
            ConfigError::InvalidRule => String::from_str("Invalid pattern rule"),
            ConfigError::InvalidThreads => String::from_str("Thread count must be positive"),
        }
    }

    /// The message text, at the spec level.
    pub open spec fn spec_message(&self) -> Seq<char> {
        match self {
            ConfigError::FileError(s) => "Failed to read config file: "@ + s@,
            ConfigError::JsonError(s) => "Failed to parse JSON: "@ + s@,
            ConfigError::InvalidOperator(s) => "Invalid operator address: "@ + s@,
            ConfigError::InvalidCreate2(s) => "Invalid create2 address: "@ + s@,
            ConfigError::InvalidEntryPoint(s) => "Invalid entry point address: "@ + s@,
            ConfigError::InvalidBytecode => "Bytecode is empty or invalid"@,
            ConfigError::InvalidRPC => "Invalid RPC URL"@,
            ConfigError::NoRules => "No pattern rules defined"@,
            ConfigError::InvalidRule => "Invalid pattern rule"@,
            ConfigError::InvalidThreads => "Thread count must be positive"@,
        }
    }
}

} // verus!
