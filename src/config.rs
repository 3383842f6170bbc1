use vstd::prelude::*;

use crate::error::Error;
use crate::token::{all_digits, decimal_value, is_digit, lemma_decimal_push};

verus! {

/// `env[i]` is the first entry named `name`.
pub open spec fn is_first_named(env: Seq<(String, String)>, name: Seq<char>, i: int) -> bool {
    &&& 0 <= i < env.len()
    &&& env[i].0@ == name
    &&& forall|k: int| 0 <= k < i ==> (#[trigger] env[k]).0@ != name
}

/// The value of the variable `name` in `env`: that of its first entry.
pub open spec fn env_value(env: Seq<(String, String)>, name: Seq<char>) -> Option<Seq<char>> {
    if exists|i: int| #[trigger] is_first_named(env, name, i) {
        Some(env[choose|i: int| #[trigger] is_first_named(env, name, i)].1@)
    } else {
        None
    }
}

/// The number that `s` writes in decimal, with an optional leading `+`.
pub open spec fn unsigned_text_value(s: Seq<char>) -> Option<nat> {
    let d = if s.len() > 0 && s[0] == '+' {
        s.drop_first()
    } else {
        s
    };
    if d.len() > 0 && all_digits(d) {
        Some(decimal_value(d))
    } else {
        None
    }
}

pub open spec fn spec_parse_u32(s: Seq<char>) -> Option<u32> {
    match unsigned_text_value(s) {
        Some(v) => if v <= u32::MAX {
            Some(v as u32)
        } else {
            None
        },
        None => None,
    }
}

/// Reads an unsigned 32-bit number written in decimal, as `str::parse` does.
pub fn parse_u32(s: &str) -> (r: Option<u32>)
    ensures
        r == spec_parse_u32(s@),
{
    let n = s.unicode_len();
    let start: usize = if n > 0 && s.get_char(0) == '+' {
        1
    } else {
        0
    };
    let ghost d = s@.subrange(start as int, n as int);
    assert(d =~= if s@.len() > 0 && s@[0] == '+' {
        s@.drop_first()
    } else {
        s@
    });
    if start == n {
        return None;
    }
    let mut i: usize = start;
    let mut value: u64 = 0;
    let mut overflow = false;
    while i < n
        invariant
            n == s@.len(),
            d == s@.subrange(start as int, n as int),
            d == (if s@.len() > 0 && s@[0] == '+' {
                s@.drop_first()
            } else {
                s@
            }),
            start <= i <= n,
            forall|k: int| start <= k < i ==> is_digit(#[trigger] s@[k]),
            value <= u32::MAX,
            !overflow ==> value == decimal_value(s@.subrange(start as int, i as int)),
            overflow ==> decimal_value(s@.subrange(start as int, i as int)) > u32::MAX,
        decreases n - i,
    {
        let c = s.get_char(i);
        if c < '0' || c > '9' {
            assert(d[i - start] == s@[i as int]);
            assert(!is_digit(d[i - start]));
            assert(!all_digits(d));
            return None;
        }
        let dv = (c as u32 - '0' as u32) as u64;
        proof {
            assert(s@.subrange(start as int, i + 1) =~= s@.subrange(start as int, i as int).push(c));
            lemma_decimal_push(s@.subrange(start as int, i as int), c);
        }
        if !overflow {
            value = value * 10 + dv;
            if value > 4294967295 {
                overflow = true;
                value = 0;
            }
        }
        i = i + 1;
    }
    assert forall|k: int| 0 <= k < d.len() implies #[trigger] is_digit(d[k]) by {
        assert(d[k] == s@[start + k]);
    }
    if overflow {
        return None;
    }
    assert(s@.subrange(start as int, n as int) =~= d);
    assert forall|k: int| 0 <= k < d.len() implies #[trigger] is_digit(d[k]) by {
        assert(d[k] == s@[start + k]);
    }
    Some(value as u32)
}

/// The variable `name` of `env`, or `MissingENV`.
pub open spec fn spec_get_env(env: Seq<(String, String)>, name: &'static str) -> Result<Seq<char>, Error> {
    match env_value(env, name@) {
        Some(v) => Ok(v),
        None => Err(Error::MissingENV(name)),
    }
}

/// The variable `name` of `env` as a number, or `MissingENV`, or
/// `ENVWrongFormat` where its value is no number.
pub open spec fn spec_get_env_parse(env: Seq<(String, String)>, name: &'static str) -> Result<u32, Error> {
    match env_value(env, name@) {
        Some(v) => match spec_parse_u32(v) {
            Some(n) => Ok(n),
            None => Err(Error::ENVWrongFormat(name)),
        },
        None => Err(Error::MissingENV(name)),
    }
}

/// Looks the variable `name` up in `env`, a list of name and value pairs.
pub fn get_env(name: &'static str, env: &Vec<(String, String)>) -> (r: Result<String, Error>)
    ensures
        match spec_get_env(env@, name) {
            Ok(v) => r matches Ok(s) && s@ == v,
            Err(e) => r == Err::<String, Error>(e),
        },
{
    let key = String::from_str(name);
    let mut i: usize = 0;
    while i < env.len()
        invariant
            key@ == name@,
            0 <= i <= env@.len(),
            forall|k: int| 0 <= k < i ==> (#[trigger] env@[k]).0@ != name@,
        decreases env@.len() - i,
    {
        if env[i].0 == key {
            proof {
                assert(is_first_named(env@, name@, i as int));
                let j = choose|j: int| #[trigger] is_first_named(env@, name@, j);
                if j < i {
                    assert(env@[j].0@ != name@);
                } else if j > i {
                    assert(env@[i as int].0@ != name@);
                }
            }
            return Ok(env[i].1.clone());
        }
        i = i + 1;
    }
    proof {
        assert forall|j: int| !(#[trigger] is_first_named(env@, name@, j)) by {
            if is_first_named(env@, name@, j) {
                assert(env@[j].0@ != name@);
            }
        }
    }
    Err(Error::MissingENV(name))
}

/// Looks the variable `name` up in `env` and reads its value as a number.
pub fn get_env_parse(name: &'static str, env: &Vec<(String, String)>) -> (r: Result<u32, Error>)
    ensures
        r == spec_get_env_parse(env@, name),
{
    match get_env(name, env) {
        Ok(val) => match parse_u32(val.as_str()) {
            Some(n) => Ok(n),
            None => Err(Error::ENVWrongFormat(name)),
        },
        Err(e) => Err(e),
    }
}

/// The service's settings.
#[allow(non_snake_case)]
pub struct CoreConfig {
    pub SERVER_URL: String,
    pub SERVER_PORT: u32,
    pub DB_NAME: String,
    pub DB_HOST: String,
    pub DB_USER: String,
    pub DB_PASS: String,
    pub DB_PORT: u32,
}

/// The settings read from `env`, or the error of the first setting, in the
/// order of the fields, that is missing or malformed.
pub open spec fn spec_load_from_env(env: Seq<(String, String)>) -> Result<
    (Seq<char>, u32, Seq<char>, Seq<char>, Seq<char>, Seq<char>, u32),
    Error,
> {
    match spec_get_env(env, "SERVER_URL") {
        Err(e) => Err(e),
        Ok(server_url) => match spec_get_env_parse(env, "SERVER_PORT") {
            Err(e) => Err(e),
            Ok(server_port) => match spec_get_env(env, "DB_NAME") {
                Err(e) => Err(e),
                Ok(db_name) => match spec_get_env(env, "DB_HOST") {
                    Err(e) => Err(e),
                    Ok(db_host) => match spec_get_env(env, "DB_USER") {
                        Err(e) => Err(e),
                        Ok(db_user) => match spec_get_env(env, "DB_PASS") {
                            Err(e) => Err(e),
                            Ok(db_pass) => match spec_get_env_parse(env, "DB_PORT") {
                                Err(e) => Err(e),
                                Ok(db_port) => Ok(
                                    (
                                        server_url,
                                        server_port,
                                        db_name,
                                        db_host,
                                        db_user,
                                        db_pass,
                                        db_port,
                                    ),
                                ),
                            },
                        },
                    },
                },
            },
        },
    }
}

impl CoreConfig {
    pub open spec fn spec_fields(&self) -> (
        Seq<char>,
        u32,
        Seq<char>,
        Seq<char>,
        Seq<char>,
        Seq<char>,
        u32,
    ) {
        (
            self.SERVER_URL@,
            self.SERVER_PORT,
            self.DB_NAME@,
            self.DB_HOST@,
            self.DB_USER@,
            self.DB_PASS@,
            self.DB_PORT,
        )
    }

    /// Builds the settings from `env`, a list of name and value pairs.
    pub fn load_from_env(env: &Vec<(String, String)>) -> (r: Result<CoreConfig, Error>)
        ensures
            match spec_load_from_env(env@) {
                Ok(fields) => r matches Ok(c) && c.spec_fields() == fields,
                Err(e) => r == Err::<CoreConfig, Error>(e),
            },
    {
        let server_url = match get_env("SERVER_URL", env) {
            Ok(v) => v,
            Err(e) => return Err(e),
        };
        let server_port = match get_env_parse("SERVER_PORT", env) {
            Ok(v) => v,
            Err(e) => return Err(e),
        };
        let db_name = match get_env("DB_NAME", env) {
            Ok(v) => v,
            Err(e) => return Err(e),
        };
        let db_host = match get_env("DB_HOST", env) {
            Ok(v) => v,
            Err(e) => return Err(e),
        };
        let db_user = match get_env("DB_USER", env) {
            Ok(v) => v,
            Err(e) => return Err(e),
        };
        let db_pass = match get_env("DB_PASS", env) {
            Ok(v) => v,
            Err(e) => return Err(e),
        };
        let db_port = match get_env_parse("DB_PORT", env) {
            Ok(v) => v,
            Err(e) => return Err(e),
        };
        Ok(
            CoreConfig {
                SERVER_URL: server_url,
                SERVER_PORT: server_port,
                DB_NAME: db_name,
                DB_HOST: db_host,
                DB_USER: db_user,
                DB_PASS: db_pass,
                DB_PORT: db_port,
            },
        )
    }
}

} // verus!
