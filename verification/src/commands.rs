//! Command classification, dispatch, the status model and the
//! persistence policy.

use vstd::prelude::*;

use crate::errors::G213Error;
use crate::g213_keyboard::{
    limit_speed, set_breathe, set_cycle, set_region_colour, set_whole_keyboard_colour,
    spec_transport_error, KeyboardRegions, MIN_SPEED, NUM_REGIONS,
};
use crate::usb::UsbDevice;
use crate::text::{
    ci_eq_seq, eq_ignore_case, lemma_ci_distinct, lemma_ci_lengths, parse_u16_saturating,
    spec_parse_u16,
};
use crate::x11_colours::{get_x11_colour, resolve_token, spec_get_x11_colour, spec_resolve_token};

verus! {

/// The outcome of one command execution. Only `Success` makes the command
/// eligible for persistence.
#[derive(Clone, Copy, PartialEq, Eq, Structural, Debug)]
pub enum Status {
    /// A fully valid operation updated the hardware.
    Success,
    /// The hardware was updated with a fallback value, or nothing was sent,
    /// because some input was invalid.
    Failure,
    /// An informational command; persistence is irrelevant.
    SuccessNoSave,
}

/// Whether a status counts as a successful invocation.
pub trait Successful {
    /// What the executable answer must equal.
    spec fn spec_successful(&self) -> bool;

    fn successful(&self) -> (r: bool)
        ensures
            r == self.spec_successful(),
    ;
}

impl Successful for Status {
    open spec fn spec_successful(&self) -> bool {
        *self == Status::Success || *self == Status::SuccessNoSave
    }

    fn successful(&self) -> bool {
        match self {
            Status::Success => true,
            Status::SuccessNoSave => true,
            Status::Failure => false,
        }
    }
}

/// A classified user command, carrying its raw operand tokens.
#[derive(Clone, Debug, PartialEq)]
pub enum Command {
    Colour(Vec<String>),
    Region(Vec<String>),
    Regions(Vec<String>),
    Breathe(Vec<String>),
    Cycle(Vec<String>),
    List(Vec<String>),
    Info,
    Saved,
    Help(Vec<String>),
    Unknown(Vec<String>),
}

/// The ten command kinds a first token can classify to.
#[derive(Clone, Copy, PartialEq, Eq, Structural, Debug)]
pub enum CommandKind {
    Colour,
    Region,
    Regions,
    Breathe,
    Cycle,
    List,
    Info,
    Saved,
    Help,
    Unknown,
}

pub open spec fn is_colour_word(t: Seq<char>) -> bool {
    ci_eq_seq(t, "colour"@) || ci_eq_seq(t, "c"@)
}

pub open spec fn is_region_word(t: Seq<char>) -> bool {
    ci_eq_seq(t, "region"@) || ci_eq_seq(t, "r"@)
}

pub open spec fn is_regions_word(t: Seq<char>) -> bool {
    ci_eq_seq(t, "regions"@) || ci_eq_seq(t, "rs"@)
}

pub open spec fn is_breathe_word(t: Seq<char>) -> bool {
    ci_eq_seq(t, "breathe"@) || ci_eq_seq(t, "b"@)
}

pub open spec fn is_cycle_word(t: Seq<char>) -> bool {
    ci_eq_seq(t, "cycle"@) || ci_eq_seq(t, "cy"@)
}

pub open spec fn is_list_word(t: Seq<char>) -> bool {
    ci_eq_seq(t, "list"@) || ci_eq_seq(t, "l"@)
}

pub open spec fn is_info_word(t: Seq<char>) -> bool {
    ci_eq_seq(t, "info"@) || ci_eq_seq(t, "i"@)
}

pub open spec fn is_saved_word(t: Seq<char>) -> bool {
    ci_eq_seq(t, "saved"@) || ci_eq_seq(t, "s"@)
}

pub open spec fn is_help_word(t: Seq<char>) -> bool {
    ci_eq_seq(t, "help"@) || ci_eq_seq(t, "h"@) || ci_eq_seq(t, "?"@)
}

/// The kind a first token classifies to. Total: every token lands in
/// exactly one kind.
pub open spec fn spec_classify(t: Seq<char>) -> CommandKind {
    if is_colour_word(t) {
        CommandKind::Colour
    } else if is_region_word(t) {
        CommandKind::Region
    } else if is_regions_word(t) {
        CommandKind::Regions
    } else if is_breathe_word(t) {
        CommandKind::Breathe
    } else if is_cycle_word(t) {
        CommandKind::Cycle
    } else if is_list_word(t) {
        CommandKind::List
    } else if is_info_word(t) {
        CommandKind::Info
    } else if is_saved_word(t) {
        CommandKind::Saved
    } else if is_help_word(t) {
        CommandKind::Help
    } else {
        CommandKind::Unknown
    }
}

/// Classification is total and unambiguous: a token that matches one
/// keyword group matches no other, so each token maps to exactly the
/// kind of its group, and a token that matches none maps to Unknown.
pub proof fn lemma_classification_total(token: Seq<char>)
    ensures
        is_colour_word(token) ==> spec_classify(token) == CommandKind::Colour,
        is_region_word(token) ==> spec_classify(token) == CommandKind::Region,
        is_regions_word(token) ==> spec_classify(token) == CommandKind::Regions,
        is_breathe_word(token) ==> spec_classify(token) == CommandKind::Breathe,
        is_cycle_word(token) ==> spec_classify(token) == CommandKind::Cycle,
        is_list_word(token) ==> spec_classify(token) == CommandKind::List,
        is_info_word(token) ==> spec_classify(token) == CommandKind::Info,
        is_saved_word(token) ==> spec_classify(token) == CommandKind::Saved,
        is_help_word(token) ==> spec_classify(token) == CommandKind::Help,
        !(is_colour_word(token) || is_region_word(token) || is_regions_word(token)
            || is_breathe_word(token) || is_cycle_word(token) || is_list_word(token)
            || is_info_word(token) || is_saved_word(token) || is_help_word(token))
            ==> spec_classify(token) == CommandKind::Unknown,
        token.len() == 0 ==> spec_classify(token) == CommandKind::Unknown,
{
    reveal_strlit("colour");
    reveal_strlit("c");
    reveal_strlit("region");
    reveal_strlit("r");
    reveal_strlit("regions");
    reveal_strlit("rs");
    reveal_strlit("breathe");
    reveal_strlit("b");
    reveal_strlit("cycle");
    reveal_strlit("cy");
    reveal_strlit("list");
    reveal_strlit("l");
    reveal_strlit("info");
    reveal_strlit("i");
    reveal_strlit("saved");
    reveal_strlit("s");
    reveal_strlit("help");
    reveal_strlit("h");
    reveal_strlit("?");
    lemma_ci_lengths();
    lemma_ci_distinct("c"@, "r"@);
    lemma_ci_distinct("c"@, "b"@);
    lemma_ci_distinct("c"@, "l"@);
    lemma_ci_distinct("c"@, "i"@);
    lemma_ci_distinct("c"@, "s"@);
    lemma_ci_distinct("c"@, "h"@);
    lemma_ci_distinct("c"@, "?"@);
    lemma_ci_distinct("r"@, "b"@);
    lemma_ci_distinct("r"@, "l"@);
    lemma_ci_distinct("r"@, "i"@);
    lemma_ci_distinct("r"@, "s"@);
    lemma_ci_distinct("r"@, "h"@);
    lemma_ci_distinct("r"@, "?"@);
    lemma_ci_distinct("b"@, "l"@);
    lemma_ci_distinct("b"@, "i"@);
    lemma_ci_distinct("b"@, "s"@);
    lemma_ci_distinct("b"@, "h"@);
    lemma_ci_distinct("b"@, "?"@);
    lemma_ci_distinct("l"@, "i"@);
    lemma_ci_distinct("l"@, "s"@);
    lemma_ci_distinct("l"@, "h"@);
    lemma_ci_distinct("l"@, "?"@);
    lemma_ci_distinct("i"@, "s"@);
    lemma_ci_distinct("i"@, "h"@);
    lemma_ci_distinct("i"@, "?"@);
    lemma_ci_distinct("s"@, "h"@);
    lemma_ci_distinct("s"@, "?"@);
    lemma_ci_distinct("rs"@, "cy"@);
    lemma_ci_distinct("list"@, "info"@);
    lemma_ci_distinct("list"@, "help"@);
    lemma_ci_distinct("info"@, "help"@);
    lemma_ci_distinct("cycle"@, "saved"@);
    lemma_ci_distinct("colour"@, "region"@);
    lemma_ci_distinct("regions"@, "breathe"@);
}

/// The first token of an argument list, or the empty token.
pub open spec fn spec_first_token(args: Seq<Seq<char>>) -> Seq<char> {
    if args.len() == 0 {
        Seq::empty()
    } else {
        args[0]
    }
}

/// The operand tokens: everything after the first.
pub open spec fn spec_rest(args: Seq<Seq<char>>) -> Seq<Seq<char>> {
    if args.len() == 0 {
        args
    } else {
        args.drop_first()
    }
}

/// A produced command is the one the argument list classifies to: its
/// variant is the first token's kind, and it carries the operand tokens
/// (all original tokens, for Unknown).
pub open spec fn spec_command_matches(args: Seq<Seq<char>>, c: Command) -> bool {
    let kind = spec_classify(spec_first_token(args));
    match c {
        Command::Colour(a) => kind == CommandKind::Colour && a.deep_view() == spec_rest(args),
        Command::Region(a) => kind == CommandKind::Region && a.deep_view() == spec_rest(args),
        Command::Regions(a) => kind == CommandKind::Regions && a.deep_view() == spec_rest(args),
        Command::Breathe(a) => kind == CommandKind::Breathe && a.deep_view() == spec_rest(args),
        Command::Cycle(a) => kind == CommandKind::Cycle && a.deep_view() == spec_rest(args),
        Command::List(a) => kind == CommandKind::List && a.deep_view() == spec_rest(args),
        Command::Info => kind == CommandKind::Info,
        Command::Saved => kind == CommandKind::Saved,
        Command::Help(a) => kind == CommandKind::Help && a.deep_view() == spec_rest(args),
        Command::Unknown(a) => kind == CommandKind::Unknown && a.deep_view() == args,
    }
}

/// Copy the tokens from `from` onwards.
fn tail_strings(args: &[String], from: usize) -> (r: Vec<String>)
    requires
        from <= args@.len(),
    ensures
        r.deep_view() == args.deep_view().skip(from as int),
{
    let mut out: Vec<String> = Vec::new();
    let mut i: usize = from;
    while i < args.len()
        invariant
            from <= i <= args@.len(),
            out@.len() == i - from,
            forall|j: int| 0 <= j < out@.len() ==> (#[trigger] out@[j])@ == args@[from + j]@,
        decreases args@.len() - i,
    {
        let token = args[i].clone();
        out.push(token);
        i = i + 1;
    }
    proof {
        assert forall|j: int| 0 <= j < out.deep_view().len() implies out.deep_view()[j]
            == args.deep_view().skip(from as int)[j] by {
            assert(out.deep_view()[j] == out@[j]@);
            assert(args.deep_view().skip(from as int)[j] == args@[from + j]@);
        }
        assert(out.deep_view() =~= args.deep_view().skip(from as int));
    }
    out
}

/// Classify an argument list into a command: the first token, compared
/// case-insensitively against the keyword table, picks the variant; the
/// remaining tokens become its operands. An unrecognised first token
/// produces Unknown carrying all original tokens.
pub fn get_command(args: &[String]) -> (r: Command)
    ensures
        spec_command_matches(args.deep_view(), r),
{
    proof {
        lemma_classification_total(spec_first_token(args.deep_view()));
    }
    if args.len() == 0 {
        let empty: Vec<String> = Vec::new();
        proof {
            assert(empty.deep_view() =~= args.deep_view());
        }
        return Command::Unknown(empty);
    }
    assert(args.deep_view()[0] == args@[0]@);
    proof {
        assert(args.deep_view().skip(1) =~= spec_rest(args.deep_view()));
    }
    let first = args[0].as_str();
    if eq_ignore_case(first, "colour") || eq_ignore_case(first, "c") {
        Command::Colour(tail_strings(args, 1))
    } else if eq_ignore_case(first, "region") || eq_ignore_case(first, "r") {
        Command::Region(tail_strings(args, 1))
    } else if eq_ignore_case(first, "regions") || eq_ignore_case(first, "rs") {
        Command::Regions(tail_strings(args, 1))
    } else if eq_ignore_case(first, "breathe") || eq_ignore_case(first, "b") {
        Command::Breathe(tail_strings(args, 1))
    } else if eq_ignore_case(first, "cycle") || eq_ignore_case(first, "cy") {
        Command::Cycle(tail_strings(args, 1))
    } else if eq_ignore_case(first, "list") || eq_ignore_case(first, "l") {
        Command::List(tail_strings(args, 1))
    } else if eq_ignore_case(first, "info") || eq_ignore_case(first, "i") {
        Command::Info
    } else if eq_ignore_case(first, "saved") || eq_ignore_case(first, "s") {
        Command::Saved
    } else if eq_ignore_case(first, "help") || eq_ignore_case(first, "h") || eq_ignore_case(
        first,
        "?",
    ) {
        Command::Help(tail_strings(args, 1))
    } else {
        let all = tail_strings(args, 0);
        proof {
            assert(args.deep_view().skip(0) =~= args.deep_view());
        }
        Command::Unknown(all)
    }
}

/// The fallback colour sent when a colour operand does not resolve.
pub const RED: u32 = 0xff1010;

/// Resolve a colour operand list, or fall back to the sentinel red.
pub fn get_colour_or_red(args: &[String]) -> (r: (u32, Status))
    ensures
        r.0 <= 0xffffff,
        spec_get_x11_colour(args.deep_view()) matches Some(c) ==> r == (c, Status::Success),
        spec_get_x11_colour(args.deep_view()) is None ==> r == (RED, Status::Failure),
{
    match get_x11_colour(args) {
        Some(colour) => (colour, Status::Success),
        None => (RED, Status::Failure),
    }
}

/// The colour the region at position `i` receives: its token's colour,
/// or the sentinel red where the token is missing or does not resolve.
pub open spec fn spec_region_colour_at(args: Seq<Seq<char>>, i: int) -> u32 {
    if 0 <= i < args.len() && spec_resolve_token(args[i]) is Some {
        spec_resolve_token(args[i]).unwrap()
    } else {
        RED
    }
}

/// All requested colours resolved: one token per region, each a known
/// colour.
pub open spec fn spec_all_colours_resolved(args: Seq<Seq<char>>, num: int) -> bool {
    args.len() == num && (forall|i: int| 0 <= i < num ==> spec_resolve_token(#[trigger] args[i]) is Some)
}

/// Resolve one colour for each of `num` regions, independently, falling
/// back to the sentinel red per unresolved token.
pub fn get_colours_or_red(args: &[String], num: u8) -> (r: (Vec<u32>, Status))
    ensures
        r.0@.len() == num as int,
        forall|i: int|
            0 <= i < num as int ==> r.0@[i] == spec_region_colour_at(args.deep_view(), i),
        forall|i: int| 0 <= i < num as int ==> r.0@[i] <= 0xffffff,
        r.1 == (if spec_all_colours_resolved(args.deep_view(), num as int) {
            Status::Success
        } else {
            Status::Failure
        }),
{
    let ghost dv = args.deep_view();
    let mut colours: Vec<u32> = Vec::new();
    let mut all_ok = args.len() == num as usize;
    let mut i: usize = 0;
    while i < num as usize
        invariant
            dv == args.deep_view(),
            dv.len() == args@.len(),
            i <= num as usize,
            colours@.len() == i,
            forall|j: int| 0 <= j < i ==> colours@[j] == spec_region_colour_at(dv, j),
            forall|j: int| 0 <= j < i ==> colours@[j] <= 0xffffff,
            all_ok == (dv.len() == num as int && (forall|j: int|
                0 <= j < i ==> spec_resolve_token(#[trigger] dv[j]) is Some)),
        decreases num as usize - i,
    {
        if i < args.len() {
            assert(dv[i as int] == args@[i as int]@);
            match resolve_token(args[i].as_str()) {
                Some(colour) => {
                    colours.push(colour);
                },
                None => {
                    colours.push(RED);
                    all_ok = false;
                },
            }
        } else {
            colours.push(RED);
            all_ok = false;
        }
        i = i + 1;
    }
    let status = if all_ok {
        Status::Success
    } else {
        Status::Failure
    };
    (colours, status)
}

/// What a colour command's status must be: Success exactly when the
/// operand resolves.
pub open spec fn spec_colour_status(args: Seq<Seq<char>>) -> Status {
    if spec_get_x11_colour(args) is Some {
        Status::Success
    } else {
        Status::Failure
    }
}

fn colour_command(device: &UsbDevice, args: &[String]) -> (r: Result<Status, G213Error>)
    ensures
        r matches Ok(st) ==> st == spec_colour_status(args.deep_view()),
        r matches Err(e) ==> spec_transport_error(e),
{
    let (colour, status) = get_colour_or_red(args);
    match set_whole_keyboard_colour(device, colour) {
        Ok(_) => Ok(status),
        Err(e) => Err(e),
    }
}

/// The region a region command addresses, when its operands are valid:
/// a first token that spells a region number in range, followed by at
/// least one colour token.
pub open spec fn spec_region_request(args: Seq<Seq<char>>) -> Option<u8> {
    if args.len() >= 2 {
        match spec_parse_u16(args[0]) {
            Some(n) => if 1 <= n && n <= NUM_REGIONS as u16 {
                Some(n as u8)
            } else {
                None
            },
            None => None,
        }
    } else {
        None
    }
}

/// What a region command's status must be: an invalid request fails
/// without sending; otherwise the colour operand decides.
pub open spec fn spec_region_status(args: Seq<Seq<char>>) -> Status {
    if spec_region_request(args) is Some {
        spec_colour_status(args.drop_first())
    } else {
        Status::Failure
    }
}

fn region_command(device: &UsbDevice, args: &[String]) -> (r: Result<Status, G213Error>)
    ensures
        r matches Ok(st) ==> st == spec_region_status(args.deep_view()),
        r matches Err(e) ==> spec_transport_error(e) && spec_region_request(args.deep_view())
            is Some,
{
    let ghost dv = args.deep_view();
    if args.len() < 2 {
        return Ok(Status::Failure);
    }
    assert(dv[0] == args@[0]@);
    let number = match parse_u16_saturating(args[0].as_str()) {
        Some(n) => n,
        None => {
            return Ok(Status::Failure);
        },
    };
    if number < 1 || number > NUM_REGIONS as u16 {
        return Ok(Status::Failure);
    }
    let region = match KeyboardRegions::from_number(number as u8) {
        Some(region) => region,
        None => unreached(),
    };
    let tail = tail_strings(args, 1);
    proof {
        assert(dv.skip(1) =~= dv.drop_first());
    }
    let (colour, status) = get_colour_or_red(tail.as_slice());
    match set_region_colour(device, region, colour) {
        Ok(_) => Ok(status),
        Err(e) => Err(e),
    }
}

/// What a regions command's status must be: no operands fail without
/// sending; otherwise Success exactly when every region got its own
/// resolved colour.
pub open spec fn spec_regions_status(args: Seq<Seq<char>>) -> Status {
    if args.len() == 0 {
        Status::Failure
    } else if spec_all_colours_resolved(args, NUM_REGIONS as int) {
        Status::Success
    } else {
        Status::Failure
    }
}

fn regions_command(device: &UsbDevice, args: &[String]) -> (r: Result<Status, G213Error>)
    ensures
        r matches Ok(st) ==> st == spec_regions_status(args.deep_view()),
        r matches Err(e) ==> spec_transport_error(e) && args.deep_view().len() >= 1,
{
    if args.len() == 0 {
        return Ok(Status::Failure);
    }
    let (colours, status) = get_colours_or_red(args, NUM_REGIONS);
    let mut i: usize = 0;
    while i < NUM_REGIONS as usize
        invariant
            colours@.len() == NUM_REGIONS as int,
            forall|j: int| 0 <= j < NUM_REGIONS as int ==> colours@[j] <= 0xffffff,
            i <= NUM_REGIONS as usize,
            args.deep_view().len() >= 1,
        decreases NUM_REGIONS as usize - i,
    {
        let region = match KeyboardRegions::from_number((i + 1) as u8) {
            Some(region) => region,
            None => unreached(),
        };
        match set_region_colour(device, region, colours[i]) {
            Ok(_) => {},
            Err(e) => {
                return Err(e);
            },
        }
        i = i + 1;
    }
    Ok(status)
}

/// What a breathe command's status must be: no operands fail without
/// sending; otherwise Success exactly when the speed token is numeric
/// and the colour operand resolves.
pub open spec fn spec_breathe_status(args: Seq<Seq<char>>) -> Status {
    if args.len() == 0 {
        Status::Failure
    } else if spec_parse_u16(args[0]) is Some && spec_get_x11_colour(args.drop_first()) is Some {
        Status::Success
    } else {
        Status::Failure
    }
}

fn breathe_command(device: &UsbDevice, args: &[String]) -> (r: Result<Status, G213Error>)
    ensures
        r matches Ok(st) ==> st == spec_breathe_status(args.deep_view()),
        r matches Err(e) ==> spec_transport_error(e) && args.deep_view().len() >= 1,
{
    let ghost dv = args.deep_view();
    if args.len() == 0 {
        return Ok(Status::Failure);
    }
    assert(dv[0] == args@[0]@);
    let (speed, speed_ok) = match parse_u16_saturating(args[0].as_str()) {
        Some(v) => (limit_speed(v), true),
        None => (MIN_SPEED, false),
    };
    let tail = tail_strings(args, 1);
    proof {
        assert(dv.skip(1) =~= dv.drop_first());
    }
    let (colour, colour_status) = get_colour_or_red(tail.as_slice());
    match set_breathe(device, speed, colour) {
        Ok(_) => {
            if speed_ok && colour_status == Status::Success {
                Ok(Status::Success)
            } else {
                Ok(Status::Failure)
            }
        },
        Err(e) => Err(e),
    }
}

/// What a cycle command's status must be: Success exactly when there is
/// one operand and it is numeric; anything else fails without sending.
pub open spec fn spec_cycle_status(args: Seq<Seq<char>>) -> Status {
    if args.len() == 1 && spec_parse_u16(args[0]) is Some {
        Status::Success
    } else {
        Status::Failure
    }
}

fn cycle_command(device: &UsbDevice, args: &[String]) -> (r: Result<Status, G213Error>)
    ensures
        r matches Ok(st) ==> st == spec_cycle_status(args.deep_view()),
        r matches Err(e) ==> spec_transport_error(e) && spec_cycle_status(args.deep_view())
            == Status::Success,
{
    let ghost dv = args.deep_view();
    if args.len() != 1 {
        return Ok(Status::Failure);
    }
    assert(dv[0] == args@[0]@);
    let speed = match parse_u16_saturating(args[0].as_str()) {
        Some(v) => limit_speed(v),
        None => {
            return Ok(Status::Failure);
        },
    };
    match set_cycle(device, speed) {
        Ok(_) => Ok(Status::Success),
        Err(e) => Err(e),
    }
}

/// Running a command against a device.
pub trait Run {
    /// Whether the variant carries a non-empty operand list.
    spec fn spec_has_args(&self) -> bool;

    /// What a run's result must satisfy.
    spec fn run_result_ok(&self, r: Result<Status, G213Error>) -> bool;

    fn has_args(&self) -> (r: bool)
        ensures
            r == self.spec_has_args(),
    ;

    fn run(&self, device: &UsbDevice) -> (r: Result<Status, G213Error>)
        ensures
            self.run_result_ok(r),
    ;
}

impl Run for Command {
    open spec fn spec_has_args(&self) -> bool {
        match *self {
            Command::Colour(a) => a@.len() > 0,
            Command::Region(a) => a@.len() > 0,
            Command::Regions(a) => a@.len() > 0,
            Command::Breathe(a) => a@.len() > 0,
            Command::Cycle(a) => a@.len() > 0,
            Command::List(a) => a@.len() > 0,
            Command::Info => false,
            Command::Saved => false,
            Command::Help(a) => a@.len() > 0,
            Command::Unknown(a) => a@.len() > 0,
        }
    }

    open spec fn run_result_ok(&self, r: Result<Status, G213Error>) -> bool {
        match *self {
            Command::Colour(a) => (r matches Ok(st) ==> st == spec_colour_status(a.deep_view()))
                && (r matches Err(e) ==> spec_transport_error(e)),
            Command::Region(a) => (r matches Ok(st) ==> st == spec_region_status(a.deep_view()))
                && (r matches Err(e) ==> spec_transport_error(e) && spec_region_request(
                a.deep_view(),
            ) is Some),
            Command::Regions(a) => (r matches Ok(st) ==> st == spec_regions_status(a.deep_view()))
                && (r matches Err(e) ==> spec_transport_error(e) && a.deep_view().len() >= 1),
            Command::Breathe(a) => (r matches Ok(st) ==> st == spec_breathe_status(a.deep_view()))
                && (r matches Err(e) ==> spec_transport_error(e) && a.deep_view().len() >= 1),
            Command::Cycle(a) => (r matches Ok(st) ==> st == spec_cycle_status(a.deep_view())) && (
            r matches Err(e) ==> spec_transport_error(e) && spec_cycle_status(a.deep_view())
                == Status::Success),
            Command::List(_) => r == Ok::<Status, G213Error>(Status::SuccessNoSave),
            Command::Info => r == Ok::<Status, G213Error>(Status::SuccessNoSave),
            Command::Saved => r == Ok::<Status, G213Error>(Status::SuccessNoSave),
            Command::Help(_) => r == Ok::<Status, G213Error>(Status::SuccessNoSave),
            Command::Unknown(_) => r == Ok::<Status, G213Error>(Status::SuccessNoSave),
        }
    }

    fn has_args(&self) -> bool {
        match self {
            Command::Colour(args) => args.len() > 0,
            Command::Region(args) => args.len() > 0,
            Command::Regions(args) => args.len() > 0,
            Command::Breathe(args) => args.len() > 0,
            Command::Cycle(args) => args.len() > 0,
            Command::List(args) => args.len() > 0,
            Command::Info => false,
            Command::Saved => false,
            Command::Help(args) => args.len() > 0,
            Command::Unknown(args) => args.len() > 0,
        }
    }

    /// Perform the hardware action of an action command; informational
    /// commands (List, Info, Saved, Help, Unknown) touch no hardware here
    /// and always report SuccessNoSave.
    fn run(&self, device: &UsbDevice) -> (r: Result<Status, G213Error>) {
        match self {
            Command::Colour(args) => colour_command(device, args.as_slice()),
            Command::Region(args) => region_command(device, args.as_slice()),
            Command::Regions(args) => regions_command(device, args.as_slice()),
            Command::Breathe(args) => breathe_command(device, args.as_slice()),
            Command::Cycle(args) => cycle_command(device, args.as_slice()),
            Command::List(_) => Ok(Status::SuccessNoSave),
            Command::Info => Ok(Status::SuccessNoSave),
            Command::Saved => Ok(Status::SuccessNoSave),
            Command::Help(_) => Ok(Status::SuccessNoSave),
            Command::Unknown(_) => Ok(Status::SuccessNoSave),
        }
    }
}

/// Whether a status makes the executed command eligible for persistence:
/// only Success does.
pub open spec fn spec_should_save(status: Status) -> bool {
    status == Status::Success
}

/// Whether the just-executed command must replace the saved one.
pub fn should_save(status: &Status) -> (r: bool)
    ensures
        r == spec_should_save(*status),
{
    match status {
        Status::Success => true,
        Status::Failure => false,
        Status::SuccessNoSave => false,
    }
}

/// The persistence policy: only Status::Success replaces the saved
/// command; Failure and SuccessNoSave leave it unchanged.
pub fn updated_saved_command(status: &Status, command: Command, saved: Option<Command>) -> (r:
    Option<Command>)
    ensures
        spec_should_save(*status) ==> r == Some(command),
        !spec_should_save(*status) ==> r == saved,
{
    if should_save(status) {
        Some(command)
    } else {
        saved
    }
}

/// Execute a classified command: with no device present nothing is
/// attempted — no transport, no persistence — and DeviceNotFound is
/// reported.
pub fn run_command(command: &Command, device: Option<&UsbDevice>) -> (r: Result<Status, G213Error>)
    ensures
        device is None ==> r == Err::<Status, G213Error>(G213Error::DeviceNotFound),
        device is Some ==> command.run_result_ok(r),
{
    match device {
        None => Err(G213Error::DeviceNotFound),
        Some(device) => command.run(device),
    }
}

} // verus!
