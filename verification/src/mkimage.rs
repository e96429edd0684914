//! The image tool's logic: its command line, and the payload images and init
//! capsules it builds and checks.
use vstd::prelude::*;
use vstd::string::{StrSliceExecFns, StringExecFns, StringSliceAdditionalSpecFns};
use crate::init_capsule::InitCapsuleImage;
use crate::payload::{PayloadImage, 
    header_encoding, lemma_payload_round_trip, payload_accepts, payload_body, NovaPayloadEntryAbi, NovaPayloadHeaderV1,
    NovaPayloadKind,
};
use crate::bytes::{le_u32_at, push_bytes};
use crate::digest::{sha256_digest_bytes, sha256_spec};
use crate::init_capsule::{
    capsule_accepts, capsule_header_encoding, encode_init_capsule_service_name, lemma_capsule_round_trip,
    padded_service_name, service_name_encodable, service_payload_accepts, NovaInitCapsuleHeaderV1,
};

verus! {

// ---------------------------------------------------------------------------
// Text
// ---------------------------------------------------------------------------

/// Whether two strings hold the same characters.
pub fn str_eq(a: &str, b: &str) -> (r: bool)
    ensures
        r == (a@ == b@),
{
    let n = a.unicode_len();
    if n != b.unicode_len() {
        return false;
    }
    let mut i: usize = 0;
    while i < n
        invariant
            0 <= i <= n,
            n == a@.len(),
            n == b@.len(),
            forall|j: int| 0 <= j < i ==> a@[j] == b@[j],
        decreases n - i,
    {
        if a.get_char(i) != b.get_char(i) {
            return false;
        }
        i = i + 1;
    }
    assert(a@ =~= b@);
    true
}

/// The value of a digit character: 0 to 9, then `a`/`A` to `f`/`F` for 10 to
/// 15; anything else is worth 16, which no radix accepts.
pub open spec fn digit_value(c: char) -> int {
    let v = c as int;
    if 48 <= v <= 57 {
        v - 48
    } else if 97 <= v <= 102 {
        v - 87
    } else if 65 <= v <= 70 {
        v - 55
    } else {
        16
    }
}

/// The number the digits `s` spell in `radix`.
pub open spec fn digits_value(s: Seq<char>, radix: int) -> int
    decreases s.len(),
{
    if s.len() == 0 {
        0
    } else {
        digits_value(s.drop_last(), radix) * radix + digit_value(s.last())
    }
}

/// The digits of `s` after an optional leading `+`.
pub open spec fn unsigned_digits(s: Seq<char>) -> Seq<char> {
    if s.len() > 0 && s[0] == '+' { s.drop_first() } else { s }
}

/// Every character of `t` is a digit of `radix`.
pub open spec fn all_digits(t: Seq<char>, radix: int) -> bool {
    forall|i: int| 0 <= i < t.len() ==> digit_value(#[trigger] t[i]) < radix
}

/// The unsigned number `s` spells in `radix`, with an optional leading `+`,
/// where it has at least one digit, only digits of the radix, and is at most
/// `max`.
pub open spec fn spec_parse_unsigned(s: Seq<char>, radix: int, max: int) -> Option<int> {
    let t = unsigned_digits(s);
    if t.len() == 0 || !all_digits(t, radix) || digits_value(t, radix) > max {
        None
    } else {
        Some(digits_value(t, radix))
    }
}

fn digit_of(c: char) -> (r: u64)
    ensures
        r == digit_value(c),
{
    let v = c as u32;
    if 48 <= v && v <= 57 {
        (v - 48) as u64
    } else if 97 <= v && v <= 102 {
        (v - 87) as u64
    } else if 65 <= v && v <= 70 {
        (v - 55) as u64
    } else {
        16
    }
}

proof fn lemma_digits_value_nonneg(s: Seq<char>, radix: int, i: int)
    requires
        2 <= radix,
        0 <= i <= s.len(),
    ensures
        0 <= digits_value(s.take(i), radix),
    decreases i,
{
    if i > 0 {
        lemma_digits_value_nonneg(s, radix, i - 1);
        assert(s.take(i).drop_last() =~= s.take(i - 1));
        let v = digits_value(s.take(i - 1), radix);
        assert(v * radix >= 0) by (nonlinear_arith)
            requires
                v >= 0,
                radix >= 2,
        ;
    } else {
        assert(s.take(0) =~= Seq::<char>::empty());
    }
}

proof fn lemma_digits_value_grows(s: Seq<char>, radix: int, i: int, j: int)
    requires
        2 <= radix,
        0 <= i <= j <= s.len(),
        forall|k: int| 0 <= k < s.len() ==> digit_value(#[trigger] s[k]) < radix,
    ensures
        digits_value(s.take(i), radix) <= digits_value(s.take(j), radix),
    decreases j - i,
{
    if i < j {
        lemma_digits_value_grows(s, radix, i, j - 1);
        lemma_digits_value_nonneg(s, radix, j - 1);
        assert(s.take(j).drop_last() =~= s.take(j - 1));
        assert(s.take(j).last() == s[j - 1]);
        let v = digits_value(s.take(j - 1), radix);
        assert(v * radix >= v) by (nonlinear_arith)
            requires
                v >= 0,
                radix >= 2,
        ;
    }
}

/// Parses an unsigned number in `radix` that is at most `max`.
pub fn parse_unsigned(s: &str, radix: u64, max: u64) -> (r: Option<u64>)
    requires
        radix == 10 || radix == 16,
    ensures
        match spec_parse_unsigned(s@, radix as int, max as int) {
            Some(v) => r == Some(v as u64),
            None => r is None,
        },
        r matches Some(v) ==> v <= max,
        spec_parse_unsigned(s@, radix as int, max as int) matches Some(v) ==> 0 <= v <= max,
{
    let n = s.unicode_len();
    let mut start: usize = 0;
    if n > 0 && s.get_char(0) == '+' {
        start = 1;
    }
    let ghost t = unsigned_digits(s@);
    assert(t =~= s@.subrange(start as int, n as int));
    if start == n {
        assert(t.len() == 0);
        return None;
    }
    let mut value: u64 = 0;
    let mut i: usize = start;
    while i < n
        invariant
            start <= i <= n,
            n == s@.len(),
            start == 0 || start == 1,
            radix == 10 || radix == 16,
            t == s@.subrange(start as int, n as int),
            t == unsigned_digits(s@),
            forall|k: int| 0 <= k < i - start ==> digit_value(#[trigger] t[k]) < radix,
            value == digits_value(t.take(i - start), radix as int),
            value <= max,
        decreases n - i,
    {
        let d = digit_of(s.get_char(i));
        assert(t[i - start] == s@[i as int]);
        if d >= radix {
            assert(!all_digits(t, radix as int));
            return None;
        }
        assert(t.take(i - start + 1).drop_last() =~= t.take(i - start));
        let next = match value.checked_mul(radix) {
            Some(v) => v.checked_add(d),
            None => None,
        };
        match next {
            Some(v) if v <= max => {
                value = v;
            },
            _ => {
                proof {
                    assert(digits_value(t.take(i - start + 1), radix as int) > max);
                    if all_digits(t, radix as int) {
                        lemma_digits_value_grows(t, radix as int, i - start + 1, t.len() as int);
                        assert(t.take(t.len() as int) =~= t);
                    }
                }
                return None;
            },
        }
        i = i + 1;
    }
    assert(t.take(n - start) =~= t);
    Some(value)
}

/// A flag value: hexadecimal after `0x` or `0X`, decimal otherwise, at most
/// `max`.
pub open spec fn spec_parse_flag_value(s: Seq<char>, max: int) -> Option<int> {
    if s.len() >= 2 && s[0] == '0' && (s[1] == 'x' || s[1] == 'X') {
        spec_parse_unsigned(s.skip(2), 16, max)
    } else {
        spec_parse_unsigned(s, 10, max)
    }
}

/// The message for a flag whose value does not parse.
pub open spec fn invalid_value_message(flag: Seq<char>) -> Seq<char> {
    "invalid value for "@ + flag
}

fn parse_flag_value(value: &str, flag: &str, max: u64) -> (r: Result<u64, String>)
    ensures
        match spec_parse_flag_value(value@, max as int) {
            Some(v) => r == Ok::<u64, String>(v as u64),
            None => r is Err && r->Err_0@ == invalid_value_message(flag@),
        },
        r matches Ok(v) ==> v <= max,
        spec_parse_flag_value(value@, max as int) matches Some(v) ==> 0 <= v <= max,
{
    let n = value.unicode_len();
    let parsed = if n >= 2 && value.get_char(0) == '0' && (value.get_char(1) == 'x' || value.get_char(1) == 'X') {
        let rest = value.substring_char(2, n);
        assert(rest@ == value@.skip(2));
        parse_unsigned(rest, 16, max)
    } else {
        parse_unsigned(value, 10, max)
    };
    match parsed {
        Some(v) => Ok(v),
        None => {
            let mut message = String::from_str("invalid value for ");
            message.append(flag);
            Err(message)
        },
    }
}

/// Parses a 64-bit flag value.
pub fn parse_u64(value: &str, flag: &str) -> (r: Result<u64, String>)
    ensures
        match spec_parse_flag_value(value@, u64::MAX as int) {
            Some(v) => r == Ok::<u64, String>(v as u64),
            None => r is Err && r->Err_0@ == invalid_value_message(flag@),
        },
{
    parse_flag_value(value, flag, u64::MAX)
}

/// Parses a 32-bit flag value.
pub fn parse_u32(value: &str, flag: &str) -> (r: Result<u32, String>)
    ensures
        match spec_parse_flag_value(value@, u32::MAX as int) {
            Some(v) => r == Ok::<u32, String>(v as u32),
            None => r is Err && r->Err_0@ == invalid_value_message(flag@),
        },
{
    match parse_flag_value(value, flag, u32::MAX as u64) {
        Ok(v) => Ok(v as u32),
        Err(e) => Err(e),
    }
}

/// The payload kind a `--kind` value names.
pub open spec fn spec_parse_kind(s: Seq<char>) -> Result<NovaPayloadKind, Seq<char>> {
    if s == "stage1"@ {
        Ok(NovaPayloadKind::Stage1)
    } else if s == "kernel"@ {
        Ok(NovaPayloadKind::Kernel)
    } else if s == "service"@ {
        Ok(NovaPayloadKind::Service)
    } else {
        Err("unsupported payload kind `"@ + s + "`"@)
    }
}

/// Parses a `--kind` value.
pub fn parse_kind(value: &str) -> (r: Result<NovaPayloadKind, String>)
    ensures
        match spec_parse_kind(value@) {
            Ok(k) => r == Ok::<NovaPayloadKind, String>(k),
            Err(e) => r is Err && r->Err_0@ == e,
        },
{
    if str_eq(value, "stage1") {
        Ok(NovaPayloadKind::Stage1)
    } else if str_eq(value, "kernel") {
        Ok(NovaPayloadKind::Kernel)
    } else if str_eq(value, "service") {
        Ok(NovaPayloadKind::Service)
    } else {
        let mut message = String::from_str("unsupported payload kind `");
        message.append(value);
        message.append("`");
        Err(message)
    }
}

/// The usage text.
pub open spec fn usage_text() -> Seq<char> {
    "usage: novaos-mkimage [--check] --kind <stage1|kernel|service> --input <path> [--output <path>]\n       novaos-mkimage [--check] --init-capsule-v1 [--input <path>] [--output <path>] [--service-name <name>] [--capabilities <value>] [--endpoint-slots <count>] [--shared-memory-regions <count>] [--body-input <path>]"@
}

/// The usage text.
pub fn usage() -> (r: String)
    ensures
        r@ == usage_text(),
{
    String::from_str("usage: novaos-mkimage [--check] --kind <stage1|kernel|service> --input <path> [--output <path>]\n       novaos-mkimage [--check] --init-capsule-v1 [--input <path>] [--output <path>] [--service-name <name>] [--capabilities <value>] [--endpoint-slots <count>] [--shared-memory-regions <count>] [--body-input <path>]")
}

// ---------------------------------------------------------------------------
// The command line
// ---------------------------------------------------------------------------

/// What the tool was asked to do.
pub enum MkimageCommand {
    /// Wrap (or, with `check_only`, check) a payload image of `kind`.
    Payload { check_only: bool, kind: NovaPayloadKind, input: String, output: Option<String> },
    /// Build (or, with `check_only`, check) an init capsule.
    InitCapsule {
        check_only: bool,
        input: Option<String>,
        output: Option<String>,
        service_name: Option<String>,
        capabilities: u64,
        endpoint_slots: u32,
        shared_memory_regions: u32,
        body_input: Option<String>,
    },
}

/// The parsed command line.
pub struct Options {
    pub command: MkimageCommand,
}

/// The flags seen so far, with the argument index of each path or name.
#[derive(Clone, Copy, Debug, PartialEq, Eq, Structural)]
pub struct ArgScan {
    pub check_only: bool,
    pub init_capsule_v1: bool,
    pub kind: Option<NovaPayloadKind>,
    pub input: Option<usize>,
    pub output: Option<usize>,
    pub service_name: Option<usize>,
    pub capabilities: u64,
    pub endpoint_slots: u32,
    pub shared_memory_regions: u32,
    pub body_input: Option<usize>,
}

/// No flag seen.
pub open spec fn initial_scan() -> ArgScan {
    ArgScan {
        check_only: false,
        init_capsule_v1: false,
        kind: None,
        input: None,
        output: None,
        service_name: None,
        capabilities: 0,
        endpoint_slots: 0,
        shared_memory_regions: 0,
        body_input: None,
    }
}

/// The message for a flag given without its value.
pub open spec fn missing_value_message(flag: Seq<char>) -> Seq<char> {
    "missing value for "@ + flag
}

/// Scans the arguments from `i` on: each flag sets its field, each flag that
/// takes a value takes the next argument, and the first problem ends the
/// scan with its message.
pub open spec fn spec_scan(args: Seq<Seq<char>>, i: int, acc: ArgScan) -> Result<ArgScan, Seq<char>>
    decreases args.len() - i,
{
    if i < 0 || i >= args.len() {
        Ok(acc)
    } else {
        let a = args[i];
        let has_value = i + 1 < args.len();
        let value = args[i + 1];
        let idx = (i + 1) as usize;
        if a == "--check"@ {
            spec_scan(args, i + 1, ArgScan { check_only: true, ..acc })
        } else if a == "--init-capsule-v1"@ {
            spec_scan(args, i + 1, ArgScan { init_capsule_v1: true, ..acc })
        } else if a == "--kind"@ {
            if !has_value {
                Err(missing_value_message(a))
            } else {
                match spec_parse_kind(value) {
                    Ok(k) => spec_scan(args, i + 2, ArgScan { kind: Some(k), ..acc }),
                    Err(e) => Err(e),
                }
            }
        } else if a == "--input"@ {
            if !has_value { Err(missing_value_message(a)) } else { spec_scan(args, i + 2, ArgScan { input: Some(idx), ..acc }) }
        } else if a == "--output"@ {
            if !has_value { Err(missing_value_message(a)) } else { spec_scan(args, i + 2, ArgScan { output: Some(idx), ..acc }) }
        } else if a == "--service-name"@ {
            if !has_value { Err(missing_value_message(a)) } else { spec_scan(args, i + 2, ArgScan { service_name: Some(idx), ..acc }) }
        } else if a == "--capabilities"@ {
            if !has_value {
                Err(missing_value_message(a))
            } else {
                match spec_parse_flag_value(value, u64::MAX as int) {
                    Some(v) => spec_scan(args, i + 2, ArgScan { capabilities: v as u64, ..acc }),
                    None => Err(invalid_value_message(a)),
                }
            }
        } else if a == "--endpoint-slots"@ {
            if !has_value {
                Err(missing_value_message(a))
            } else {
                match spec_parse_flag_value(value, u32::MAX as int) {
                    Some(v) => spec_scan(args, i + 2, ArgScan { endpoint_slots: v as u32, ..acc }),
                    None => Err(invalid_value_message(a)),
                }
            }
        } else if a == "--shared-memory-regions"@ {
            if !has_value {
                Err(missing_value_message(a))
            } else {
                match spec_parse_flag_value(value, u32::MAX as int) {
                    Some(v) => spec_scan(args, i + 2, ArgScan { shared_memory_regions: v as u32, ..acc }),
                    None => Err(invalid_value_message(a)),
                }
            }
        } else if a == "--body-input"@ {
            if !has_value { Err(missing_value_message(a)) } else { spec_scan(args, i + 2, ArgScan { body_input: Some(idx), ..acc }) }
        } else if a == "--help"@ || a == "-h"@ {
            Err(usage_text())
        } else {
            Err("unexpected argument `"@ + a + "`"@)
        }
    }
}

/// The argument an index names.
pub open spec fn arg_at(args: Seq<Seq<char>>, idx: Option<usize>) -> Option<Seq<char>> {
    match idx {
        Some(k) => Some(args[k as int]),
        None => None,
    }
}

/// The text an optional string holds.
pub open spec fn opt_text(o: Option<String>) -> Option<Seq<char>> {
    match o {
        Some(s) => Some(s@),
        None => None,
    }
}

/// The command a finished scan makes: an init-capsule command where its flag
/// was given, else a payload command, which needs a kind and an input.
pub open spec fn command_matches(c: MkimageCommand, args: Seq<Seq<char>>, scan: ArgScan) -> bool {
    if scan.init_capsule_v1 {
        c matches MkimageCommand::InitCapsule {
            check_only,
            input,
            output,
            service_name,
            capabilities,
            endpoint_slots,
            shared_memory_regions,
            body_input,
        } && check_only == scan.check_only && opt_text(input) == arg_at(args, scan.input) && opt_text(output) == arg_at(
            args,
            scan.output,
        ) && opt_text(service_name) == arg_at(args, scan.service_name) && capabilities == scan.capabilities
            && endpoint_slots == scan.endpoint_slots && shared_memory_regions == scan.shared_memory_regions && opt_text(
            body_input,
        ) == arg_at(args, scan.body_input)
    } else {
        c matches MkimageCommand::Payload { check_only, kind, input, output } && check_only == scan.check_only
            && Some(kind) == scan.kind && Some(input@) == arg_at(args, scan.input) && opt_text(output) == arg_at(
            args,
            scan.output,
        )
    }
}

/// The texts of the arguments.
pub open spec fn arg_texts(args: Seq<String>) -> Seq<Seq<char>> {
    args.map_values(|a: String| a@)
}

fn take_arg(args: &Vec<String>, idx: Option<usize>) -> (r: Option<String>)
    requires
        idx matches Some(k) ==> k < args@.len(),
    ensures
        opt_text(r) == arg_at(arg_texts(args@), idx),
{
    match idx {
        Some(k) => Some(args[k].clone()),
        None => None,
    }
}

impl Options {
    /// Parses the command line.
    pub fn parse(args: Vec<String>) -> (r: Result<Options, String>)
        ensures
            match spec_scan(arg_texts(args@), 0, initial_scan()) {
                Err(e) => r is Err && r->Err_0@ == e,
                Ok(scan) => if !scan.init_capsule_v1 && (scan.kind is None || scan.input is None) {
                    r is Err && r->Err_0@ == usage_text()
                } else {
                    r matches Ok(o) && command_matches(o.command, arg_texts(args@), scan)
                },
            },
    {
        proof {
            reveal_strlit("--check");
            reveal_strlit("--init-capsule-v1");
            reveal_strlit("--kind");
            reveal_strlit("--input");
            reveal_strlit("--output");
            reveal_strlit("--service-name");
            reveal_strlit("--capabilities");
            reveal_strlit("--endpoint-slots");
            reveal_strlit("--shared-memory-regions");
            reveal_strlit("--body-input");
            reveal_strlit("--help");
            reveal_strlit("-h");
            reveal_strlit("missing value for ");
            reveal_strlit("unexpected argument `");
            reveal_strlit("`");
        }
        let ghost texts = arg_texts(args@);
        let n = args.len();
        let mut scan = ArgScan {
            check_only: false,
            init_capsule_v1: false,
            kind: None,
            input: None,
            output: None,
            service_name: None,
            capabilities: 0,
            endpoint_slots: 0,
            shared_memory_regions: 0,
            body_input: None,
        };
        let mut i: usize = 0;
        while i < n
            invariant
                0 <= i <= n,
                n == args@.len(),
                texts == arg_texts(args@),
                texts.len() == n,
                spec_scan(texts, 0, initial_scan()) == spec_scan(texts, i as int, scan),
                scan.input matches Some(k) ==> k < n,
                scan.output matches Some(k) ==> k < n,
                scan.service_name matches Some(k) ==> k < n,
                scan.body_input matches Some(k) ==> k < n,
            decreases n - i,
        {
            let arg = args[i].as_str();
            assert(arg@ == texts[i as int]);
            let has_value = i + 1 < n;
            if str_eq(arg, "--check") {
                scan.check_only = true;
                i = i + 1;
            } else if str_eq(arg, "--init-capsule-v1") {
                scan.init_capsule_v1 = true;
                i = i + 1;
            } else if str_eq(arg, "--kind") {
                if !has_value {
                    return Err(missing_value(arg));
                }
                assert(args[i + 1]@ == texts[i + 1]);
                match parse_kind(args[i + 1].as_str()) {
                    Ok(k) => scan.kind = Some(k),
                    Err(e) => return Err(e),
                }
                i = i + 2;
            } else if str_eq(arg, "--input") {
                if !has_value {
                    return Err(missing_value(arg));
                }
                scan.input = Some(i + 1);
                i = i + 2;
            } else if str_eq(arg, "--output") {
                if !has_value {
                    return Err(missing_value(arg));
                }
                scan.output = Some(i + 1);
                i = i + 2;
            } else if str_eq(arg, "--service-name") {
                if !has_value {
                    return Err(missing_value(arg));
                }
                scan.service_name = Some(i + 1);
                i = i + 2;
            } else if str_eq(arg, "--capabilities") {
                if !has_value {
                    return Err(missing_value(arg));
                }
                assert(args[i + 1]@ == texts[i + 1]);
                match parse_u64(args[i + 1].as_str(), arg) {
                    Ok(v) => scan.capabilities = v,
                    Err(e) => return Err(e),
                }
                i = i + 2;
            } else if str_eq(arg, "--endpoint-slots") {
                if !has_value {
                    return Err(missing_value(arg));
                }
                assert(args[i + 1]@ == texts[i + 1]);
                match parse_u32(args[i + 1].as_str(), arg) {
                    Ok(v) => scan.endpoint_slots = v,
                    Err(e) => return Err(e),
                }
                i = i + 2;
            } else if str_eq(arg, "--shared-memory-regions") {
                if !has_value {
                    return Err(missing_value(arg));
                }
                assert(args[i + 1]@ == texts[i + 1]);
                match parse_u32(args[i + 1].as_str(), arg) {
                    Ok(v) => scan.shared_memory_regions = v,
                    Err(e) => return Err(e),
                }
                i = i + 2;
            } else if str_eq(arg, "--body-input") {
                if !has_value {
                    return Err(missing_value(arg));
                }
                scan.body_input = Some(i + 1);
                i = i + 2;
            } else if str_eq(arg, "--help") || str_eq(arg, "-h") {
                return Err(usage());
            } else {
                let mut message = String::from_str("unexpected argument `");
                message.append(arg);
                message.append("`");
                return Err(message);
            }
        }
        let input = take_arg(&args, scan.input);
        let output = take_arg(&args, scan.output);
        if scan.init_capsule_v1 {
            Ok(Options {
                command: MkimageCommand::InitCapsule {
                    check_only: scan.check_only,
                    input,
                    output,
                    service_name: take_arg(&args, scan.service_name),
                    capabilities: scan.capabilities,
                    endpoint_slots: scan.endpoint_slots,
                    shared_memory_regions: scan.shared_memory_regions,
                    body_input: take_arg(&args, scan.body_input),
                },
            })
        } else {
            let kind = match scan.kind {
                Some(k) => k,
                None => return Err(usage()),
            };
            let input = match input {
                Some(p) => p,
                None => return Err(usage()),
            };
            Ok(Options { command: MkimageCommand::Payload { check_only: scan.check_only, kind, input, output } })
        }
    }
}

fn missing_value(flag: &str) -> (r: String)
    ensures
        r@ == missing_value_message(flag@),
{
    let mut message = String::from_str("missing value for ");
    message.append(flag);
    message
}

// ---------------------------------------------------------------------------
// Building images
// ---------------------------------------------------------------------------

/// Kernel bodies start on this boundary.
pub const KERNEL_PAYLOAD_LOAD_ALIGNMENT: usize = 2048;

/// Why an image could not be built.
#[derive(Clone, Copy, Debug, PartialEq, Eq, Structural)]
pub enum MkimageError {
    EmptyPayload,
    ImageSizeOverflow,
    ImageExceedsV1Limits,
    InvalidServiceName,
    InvalidBootstrapPayload,
    CapsuleSizeOverflow,
    CapsuleExceedsV1Limits,
}

pub open spec fn spec_entry_abi_for_kind(kind: NovaPayloadKind) -> NovaPayloadEntryAbi {
    match kind {
        NovaPayloadKind::Stage1 => NovaPayloadEntryAbi::Stage1Plan,
        NovaPayloadKind::Kernel => NovaPayloadEntryAbi::BootInfoV2Sidecar,
        NovaPayloadKind::Service => NovaPayloadEntryAbi::BootstrapTaskV1,
    }
}

/// The entry ABI of each payload kind.
pub fn entry_abi_for_kind(kind: NovaPayloadKind) -> (r: NovaPayloadEntryAbi)
    ensures
        r == spec_entry_abi_for_kind(kind),
{
    match kind {
        NovaPayloadKind::Stage1 => NovaPayloadEntryAbi::Stage1Plan,
        NovaPayloadKind::Kernel => NovaPayloadEntryAbi::BootInfoV2Sidecar,
        NovaPayloadKind::Service => NovaPayloadEntryAbi::BootstrapTaskV1,
    }
}

/// `alignment` is a power of two.
pub open spec fn is_power_of_two(alignment: usize) -> bool {
    alignment != 0 && alignment & ((alignment - 1) as usize) == 0
}

/// `value` rounded up to a multiple of the power of two `alignment`.
pub fn align_up(value: usize, alignment: usize) -> (r: usize)
    requires
        is_power_of_two(alignment),
        value + alignment - 1 <= usize::MAX,
    ensures
        r as int == value + alignment - 1 - (value + alignment - 1) % (alignment as int),
        r % alignment == 0,
        value <= r < value + alignment,
{
    let sum = value + (alignment - 1);
    let q = sum / alignment;
    proof {
        vstd::arithmetic::div_mod::lemma_fundamental_div_mod(sum as int, alignment as int);
        vstd::arithmetic::div_mod::lemma_mod_bound(sum as int, alignment as int);
        vstd::arithmetic::div_mod::lemma_mod_multiples_basic(q as int, alignment as int);
        vstd::arithmetic::mul::lemma_mul_is_commutative(alignment as int, q as int);
        assert(q * alignment <= sum) by (nonlinear_arith)
            requires
                sum == alignment * q + sum % alignment,
                sum % alignment >= 0,
                alignment * q == q * alignment,
        ;
    }
    let r = q * alignment;
    r
}

pub open spec fn spec_payload_load_offset(kind: NovaPayloadKind, header_size: int) -> int {
    match kind {
        NovaPayloadKind::Kernel => header_size + 2047 - (header_size + 2047) % 2048,
        _ => header_size,
    }
}

/// Where a payload's body starts: right after the header, or on the next
/// 2 KiB boundary for a kernel.
pub fn payload_load_offset(kind: NovaPayloadKind, header_size: usize) -> (r: usize)
    requires
        header_size + 2047 <= usize::MAX,
    ensures
        r == spec_payload_load_offset(kind, header_size as int),
{
    match kind {
        NovaPayloadKind::Kernel => {
            assert(2048usize & 2047usize == 0) by (bit_vector);
            align_up(header_size, KERNEL_PAYLOAD_LOAD_ALIGNMENT)
        },
        _ => header_size,
    }
}

/// The image `build_payload_image` makes of a body: the header for `kind`,
/// zeros up to the load offset, then the body.
pub open spec fn payload_image_layout(kind: NovaPayloadKind, raw: Seq<u8>, image: Seq<u8>) -> bool {
    let load_offset = spec_payload_load_offset(kind, 88);
    &&& image.len() == load_offset + raw.len()
    &&& image.subrange(load_offset, image.len() as int) == raw
    &&& forall|i: int| 88 <= i < load_offset ==> image[i] == 0
    &&& le_u32_at(image, 12) == kind.spec_raw()
    &&& le_u32_at(image, 36) == spec_entry_abi_for_kind(kind).spec_raw()
    &&& le_u32_at(image, 24) == load_offset
    &&& le_u32_at(image, 32) == load_offset
    &&& payload_body(image) == raw
}

/// Wraps a body in a payload image of `kind`: a header carrying the body's
/// SHA-256, padding to the load offset, and the body. What it builds is an
/// image of that kind and entry ABI that parses.
pub fn build_payload_image(kind: NovaPayloadKind, raw: &[u8]) -> (r: Result<Vec<u8>, MkimageError>)
    ensures
        raw@.len() == 0 ==> r == Err::<Vec<u8>, MkimageError>(MkimageError::EmptyPayload),
        raw@.len() != 0 && spec_payload_load_offset(kind, 88) + raw@.len() > u32::MAX ==> r is Err,
        raw@.len() != 0 && spec_payload_load_offset(kind, 88) + raw@.len() <= u32::MAX ==> r is Ok,
        r matches Ok(image) ==> payload_image_layout(kind, raw@, image@) && payload_accepts(image@),
{
    if raw.len() == 0 {
        return Err(MkimageError::EmptyPayload);
    }
    let load_offset = payload_load_offset(kind, 88);
    let image_size = match load_offset.checked_add(raw.len()) {
        Some(v) => v,
        None => return Err(MkimageError::ImageSizeOverflow),
    };
    if image_size > u32::MAX as usize {
        return Err(MkimageError::ImageExceedsV1Limits);
    }
    let digest = sha256_digest_bytes(raw);
    let header = NovaPayloadHeaderV1::new_flat_binary_with_offsets(
        kind,
        entry_abi_for_kind(kind),
        image_size as u32,
        load_offset as u32,
        load_offset as u32,
        digest,
    );
    let mut image = header.to_bytes();
    let ghost head = image@;
    while image.len() < load_offset
        invariant
            88 <= image@.len() <= load_offset,
            load_offset == spec_payload_load_offset(kind, 88),
            image@.subrange(0, 88) == head,
            forall|i: int| 88 <= i < image@.len() ==> image@[i] == 0,
        decreases load_offset - image@.len(),
    {
        image.push(0);
    }
    let ghost padded = image@;
    push_bytes(&mut image, raw);
    proof {
        let b = image@;
        assert(b.subrange(0, 88) =~= padded.subrange(0, 88));
        assert(b.subrange(load_offset as int, b.len() as int) =~= raw@);
        assert forall|i: int| 88 <= i < load_offset implies b[i] == 0 by {
            assert(b[i] == padded[i]);
        }
        lemma_payload_round_trip(header, b);
    }
    Ok(image)
}

/// The capsule `build_init_capsule_image` makes: the header for the service
/// and its budget, then the body.
pub open spec fn init_capsule_layout(
    name: Seq<u8>,
    capabilities: u64,
    endpoint_slots: u32,
    shared_memory_regions: u32,
    body: Seq<u8>,
    image: Seq<u8>,
) -> bool {
    &&& image.len() == 64 + body.len()
    &&& image.subrange(64, image.len() as int) == body
    &&& image.subrange(40, 56) == padded_service_name(name)
    &&& le_u32_at(image, 16) == image.len()
    &&& crate::bytes::le_u64_at(image, 24) == capabilities
    &&& le_u32_at(image, 32) == endpoint_slots
    &&& le_u32_at(image, 36) == shared_memory_regions
}

/// Builds an init capsule for `service_name` with its budget and an optional
/// bootstrap service payload as its body. The name must be encodable and the
/// body must be a bootstrap service payload. Where the capability bits are
/// all known ones, what it builds is a capsule that parses.
pub fn build_init_capsule_image(
    service_name: &str,
    capabilities: u64,
    endpoint_slots: u32,
    shared_memory_regions: u32,
    body: Option<&[u8]>,
) -> (r: Result<Vec<u8>, MkimageError>)
    ensures
        !service_name_encodable(service_name.spec_bytes()) ==> r == Err::<Vec<u8>, MkimageError>(
            MkimageError::InvalidServiceName,
        ),
        service_name_encodable(service_name.spec_bytes()) && (body matches Some(b) && !service_payload_accepts(b@))
            ==> r == Err::<Vec<u8>, MkimageError>(MkimageError::InvalidBootstrapPayload),
        service_name_encodable(service_name.spec_bytes()) && !(body matches Some(b) && !service_payload_accepts(b@))
            ==> (r is Ok <==> (match body { Some(b) => b@.len(), None => 0 }) + 64 <= u32::MAX),
        r matches Ok(image) ==> init_capsule_layout(
            service_name.spec_bytes(),
            capabilities,
            endpoint_slots,
            shared_memory_regions,
            match body { Some(b) => b@, None => Seq::empty() },
            image@,
        ),
        r matches Ok(image) ==> (capabilities & !0xFu64 == 0 ==> capsule_accepts(image@)),
{
    let name = match encode_init_capsule_service_name(service_name) {
        Some(n) => n,
        None => return Err(MkimageError::InvalidServiceName),
    };
    let body_bytes: &[u8] = match body {
        Some(b) => {
            if PayloadImage::parse_kind_abi(b, NovaPayloadKind::Service, NovaPayloadEntryAbi::BootstrapTaskV1).is_none() {
                return Err(MkimageError::InvalidBootstrapPayload);
            }
            b
        },
        None => &[],
    };
    assert(body_bytes@ == match body { Some(b) => b@, None => Seq::<u8>::empty() });
    proof {
        if body_bytes@.len() != 0 {
            assert(crate::payload::payload_structure_ok(body_bytes@));
        }
    }
    let total_size = match body_bytes.len().checked_add(64) {
        Some(v) => v,
        None => return Err(MkimageError::CapsuleSizeOverflow),
    };
    if total_size > u32::MAX as usize {
        return Err(MkimageError::CapsuleExceedsV1Limits);
    }
    let mut header = NovaInitCapsuleHeaderV1::new(name, capabilities, endpoint_slots, shared_memory_regions);
    header.total_size = total_size as u32;
    let mut image = header.to_bytes();
    let ghost head = image@;
    push_bytes(&mut image, body_bytes);
    proof {
        let b = image@;
        assert(b.subrange(0, 64) =~= head);
        assert(b.subrange(64, b.len() as int) =~= body_bytes@);
        crate::init_capsule::lemma_capsule_header_encoding_decodes(header, b);
        crate::init_capsule::lemma_service_name_round_trip(service_name.spec_bytes(), name@, 0);
        assert(crate::init_capsule::service_name_split(name@, service_name.spec_bytes().len() as int));
        if capabilities & !0xFu64 == 0 {
            lemma_capsule_round_trip(header, b);
        }
    }
    Ok(image)
}

/// What checking a payload image reports.
#[derive(Clone, Copy, Debug, PartialEq, Eq)]
pub struct PayloadCheck {
    pub kind: NovaPayloadKind,
    pub image_size: u32,
    pub load_size: u64,
    pub load_offset: u32,
    pub entry_offset: u32,
    pub entry_abi: NovaPayloadEntryAbi,
}

/// Checks that `image` is a payload of `kind` and reports its layout.
pub fn check_payload_image(image: &[u8], kind: NovaPayloadKind) -> (r: Option<PayloadCheck>)
    ensures
        r is Some <==> (payload_accepts(image@) && le_u32_at(image@, 12) == kind.spec_raw()),
        r matches Some(c) ==> c.kind == kind && c.image_size == le_u32_at(image@, 20) && c.load_size == le_u32_at(image@, 28)
            && c.load_offset == le_u32_at(image@, 24) && c.entry_offset == le_u32_at(image@, 32)
            && c.entry_abi.spec_raw() == le_u32_at(image@, 36),
{
    let payload = match PayloadImage::parse_kind(image, kind) {
        Some(p) => p,
        None => return None,
    };
    let header = payload.header();
    Some(PayloadCheck {
        kind: payload.kind(),
        image_size: header.image_size,
        load_size: payload.load_size(),
        load_offset: header.load_offset,
        entry_offset: header.entry_offset,
        entry_abi: payload.entry_abi(),
    })
}

/// What checking an init capsule reports.
pub struct InitCapsuleCheck {
    pub service_name: String,
    pub capabilities: u64,
    pub endpoint_slots: u32,
    pub shared_memory_regions: u32,
    pub total_size: u32,
    pub bootstrap_payload_present: bool,
    pub bootstrap_payload_load_size: u64,
}

/// Checks that `image` is an init capsule and reports what it holds.
pub fn check_init_capsule_image(image: &[u8]) -> (r: Option<InitCapsuleCheck>)
    ensures
        r is Some <==> capsule_accepts(image@),
        r matches Some(c) ==> {
            &&& c.capabilities == crate::bytes::le_u64_at(image@, 24)
            &&& c.endpoint_slots == le_u32_at(image@, 32)
            &&& c.shared_memory_regions == le_u32_at(image@, 36)
            &&& c.total_size == le_u32_at(image@, 16)
            &&& c.bootstrap_payload_present == (image@.len() > 64)
            &&& c.bootstrap_payload_load_size == (if image@.len() > 64 { le_u32_at(crate::init_capsule::capsule_body(image@), 28) as int } else { 0 })
            &&& c.service_name@ == crate::init_capsule::service_name_text(image@.subrange(40, 56))
        },
{
    let capsule = match InitCapsuleImage::parse(image) {
        Some(c) => c,
        None => return None,
    };
    let header = capsule.header();
    let name = match crate::init_capsule::decode_init_capsule_service_name(&header.service_name) {
        Some(n) => n,
        None => return None,
    };
    let (present, load_size) = match capsule.bootstrap_service_payload() {
        Some(p) => (true, p.load_size()),
        None => (false, 0),
    };
    Some(InitCapsuleCheck {
        service_name: String::from_str(name),
        capabilities: capsule.requested_capabilities(),
        endpoint_slots: capsule.endpoint_slots(),
        shared_memory_regions: capsule.shared_memory_regions(),
        total_size: header.total_size,
        bootstrap_payload_present: present,
        bootstrap_payload_load_size: load_size,
    })
}

} // verus!
