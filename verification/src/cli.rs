//! Process configuration: the bind host and port, parsed from the command
//! line.
//!
//! The accepted grammar is small: `--bind-host HOST` and `--port PORT`
//! (or `-p PORT`), each any number of times with the last occurrence
//! winning, over the defaults `0.0.0.0` and `12321`.  A port is one or
//! more decimal digits naming a value up to 65535; anything else on the
//! command line is refused.

use vstd::prelude::*;

use crate::decode::str_eq;

verus! {

/// The process configuration surface: where to listen.
#[derive(Debug)]
pub struct AppConfig {
    pub bind_host: String,
    pub port: u16,
}

/// Every character is a decimal digit, and there is at least one.
pub open spec fn all_dec_digits(s: Seq<char>) -> bool {
    s.len() > 0 && forall|i: int| 0 <= i < s.len() ==> 48 <= (#[trigger] s[i]) as int <= 57
}

/// The value of a decimal digit string.
pub open spec fn dec_val(s: Seq<char>) -> int
    decreases s.len(),
{
    if s.len() == 0 {
        0
    } else {
        dec_val(s.drop_last()) * 10 + (s.last() as int - 48)
    }
}

/// The texts that name a port: decimal digits whose value fits 16 bits.
pub open spec fn is_port_text(s: Seq<char>) -> bool {
    all_dec_digits(s) && dec_val(s) <= 65535
}

/// An ASCII character round-trips through a byte unchanged.
proof fn lemma_ascii_char_byte(ch: char)
    requires
        (ch as nat) < 128,
    ensures
        (ch as u8) as int == ch as int,
        (ch as int) < 128,
{
}

/// A digit string's value is never negative.
proof fn lemma_dec_val_nonneg(s: Seq<char>)
    requires
        forall|i: int| 0 <= i < s.len() ==> 48 <= (#[trigger] s[i]) as int <= 57,
    ensures
        dec_val(s) >= 0,
    decreases s.len(),
{
    if s.len() > 0 {
        lemma_dec_val_nonneg(s.drop_last());
    }
}

/// A digit string's value is at least the value of any of its prefixes:
/// appending digits never shrinks the value.
proof fn lemma_dec_val_prefix(s: Seq<char>, i: int)
    requires
        0 <= i <= s.len(),
        forall|j: int| 0 <= j < s.len() ==> 48 <= (#[trigger] s[j]) as int <= 57,
    ensures
        dec_val(s.take(i)) <= dec_val(s),
    decreases s.len() - i,
{
    if i < s.len() {
        assert(s.take(i + 1).drop_last() =~= s.take(i));
        assert(s.take(i + 1).last() == s[i]);
        lemma_dec_val_nonneg(s.take(i));
        lemma_dec_val_prefix(s, i + 1);
    } else {
        assert(s.take(i) =~= s);
    }
}

/// Parses a port number: one or more decimal digits naming a value up to
/// 65535, exactly the texts `is_port_text` admits.
pub fn parse_port(s: &str) -> (r: Option<u16>)
    ensures
        r is Some <==> is_port_text(s@),
        r matches Some(v) ==> v as int == dec_val(s@),
{
    if !s.is_ascii() {
        proof {
            assert(!vstd::utf8::is_ascii_chars(s@));
            let w = choose|i: int| 0 <= i < s@.len() && !('\0' <= #[trigger] s@[i] <= '\u{7f}');
            assert(!(48 <= s@[w] as int <= 57));
            assert(!all_dec_digits(s@));
        }
        return None;
    }
    proof {
        vstd::string::is_ascii_spec_bytes(s);
    }
    let b: &[u8] = s.as_bytes();
    if b.len() == 0 {
        return None;
    }
    let mut val: u32 = 0;
    let mut i: usize = 0;
    while i < b.len()
        invariant
            0 <= i <= s@.len(),
            b@.len() == s@.len(),
            forall|j: int| 0 <= j < s@.len() ==> b@[j] == (#[trigger] s@[j]) as u8,
            forall|j: int| 0 <= j < s@.len() ==> ((#[trigger] s@[j]) as nat) < 128,
            forall|j: int| 0 <= j < i ==> 48 <= (#[trigger] s@[j]) as int <= 57,
            val == dec_val(s@.take(i as int)),
            val <= 65535,
        decreases b@.len() - i,
    {
        let c: u8 = b[i];
        proof {
            assert(c == s@[i as int] as u8);
            lemma_ascii_char_byte(s@[i as int]);
            assert(c as int == s@[i as int] as int);
        }
        if c < 48 || c > 57 {
            return None;
        }
        let d: u32 = (c - 48) as u32;
        let next: u32 = val * 10 + d;
        proof {
            assert(s@.take(i as int + 1).drop_last() =~= s@.take(i as int));
            assert(s@.take(i as int + 1).last() == s@[i as int]);
            assert(next == dec_val(s@.take(i as int + 1)));
        }
        if next > 65535 {
            proof {
                if all_dec_digits(s@) {
                    lemma_dec_val_prefix(s@, i as int + 1);
                }
            }
            return None;
        }
        val = next;
        i += 1;
    }
    proof {
        assert(s@.take(i as int) =~= s@);
    }
    Some(val as u16)
}

/// What a flag list means, read left to right over the current host and
/// port: `--bind-host` takes the next word as the host; `--port` and `-p`
/// take the next word as a port text; anything else — a flag without its
/// value included — means the line is refused.
pub open spec fn cli_spec(args: Seq<Seq<char>>, host: Seq<char>, port: int) -> Option<
    (Seq<char>, int),
>
    decreases args.len(),
{
    if args.len() == 0 {
        Option::Some((host, port))
    } else if args[0] == "--bind-host"@ {
        if args.len() >= 2 {
            cli_spec(args.skip(2), args[1], port)
        } else {
            Option::None
        }
    } else if args[0] == "--port"@ || args[0] == "-p"@ {
        if args.len() >= 2 && is_port_text(args[1]) {
            cli_spec(args.skip(2), host, dec_val(args[1]))
        } else {
            Option::None
        }
    } else {
        Option::None
    }
}

/// The flag words of a command line: everything after the leading program
/// name.
pub open spec fn cli_words(args: Seq<String>) -> Seq<Seq<char>> {
    if args.len() == 0 {
        Seq::empty()
    } else {
        args.skip(1).map_values(|s: String| s@)
    }
}

/// Parses the command line into the process configuration, over the
/// defaults `0.0.0.0` and `12321`.  Succeeds exactly when the flag words
/// mean something under `cli_spec`, and returns that meaning.
pub fn parse_cli(args: &Vec<String>) -> (r: Result<AppConfig, String>)
    ensures
        match cli_spec(cli_words(args@), "0.0.0.0"@, 12321) {
            Option::Some(hp) => r matches Ok(cfg) && cfg.bind_host@ == hp.0 && cfg.port as int
                == hp.1,
            Option::None => r is Err,
        },
{
    let ghost words = cli_words(args@);
    let mut host: String = String::from_str("0.0.0.0");
    let mut port: u16 = 12321;
    let mut i: usize = 1;
    if args.len() == 0 {
        return Ok(AppConfig { bind_host: host, port });
    }
    proof {
        assert(words.skip(0) =~= words);
    }
    while i < args.len()
        invariant
            1 <= i <= args@.len(),
            args@.len() >= 1,
            words == cli_words(args@),
            words.len() == args@.len() - 1,
            forall|j: int| 0 <= j < words.len() ==> words[j] == (#[trigger] args@[j + 1])@,
            cli_spec(words, "0.0.0.0"@, 12321) == cli_spec(
                words.skip(i - 1),
                host@,
                port as int,
            ),
        decreases args@.len() - i,
    {
        let n = args.len();
        if str_eq(args[i].as_str(), "--bind-host") {
            if i + 1 >= n {
                proof {
                    assert(words.skip(i - 1).len() == 1);
                    assert(words.skip(i - 1)[0] == args@[i as int]@);
                }
                return Err(String::from_str("--bind-host needs a value"));
            }
            host = args[i + 1].clone();
            proof {
                assert(words.skip(i - 1)[0] == args@[i as int]@);
                assert(words.skip(i - 1)[1] == args@[i as int + 1]@);
                assert(words.skip(i - 1).skip(2) =~= words.skip(i + 1));
            }
            i += 2;
        } else if str_eq(args[i].as_str(), "--port") || str_eq(args[i].as_str(), "-p") {
            if i + 1 >= n {
                proof {
                    assert(words.skip(i - 1).len() == 1);
                    assert(words.skip(i - 1)[0] == args@[i as int]@);
                }
                return Err(String::from_str("--port needs a value"));
            }
            match parse_port(args[i + 1].as_str()) {
                Option::Some(p) => {
                    port = p;
                    proof {
                        assert(words.skip(i - 1)[0] == args@[i as int]@);
                        assert(words.skip(i - 1)[1] == args@[i as int + 1]@);
                        assert(words.skip(i - 1).skip(2) =~= words.skip(i + 1));
                    }
                    i += 2;
                },
                Option::None => {
                    proof {
                        assert(words.skip(i - 1)[0] == args@[i as int]@);
                        assert(words.skip(i - 1)[1] == args@[i as int + 1]@);
                    }
                    return Err(String::from_str("the port must be a number up to 65535"));
                },
            }
        } else {
            proof {
                assert(words.skip(i - 1)[0] == args@[i as int]@);
            }
            return Err(String::from_str("unrecognized argument"));
        }
    }
    proof {
        assert(words.skip(i - 1) =~= Seq::<Seq<char>>::empty());
    }
    Ok(AppConfig { bind_host: host, port })
}


} // verus!
