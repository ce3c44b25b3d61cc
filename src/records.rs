//! The process listing: the JSON payload within pm2's output, and the
//! display record made from each of its entries.

use vstd::prelude::*;
use crate::display::{calculate_uptime, format_memory, memory_text, uptime_text};
use crate::error::PmError;
use crate::json::{
    json_array_values, json_error_text, json_member, json_number_text, json_str, json_u64, member,
    number_text, parse_json_array,
};

verus! {

/// The fields of one listing entry, each absent where the entry lacks it or
/// holds it with another type.
#[derive(Debug)]
pub struct RawRecord {
    /// `pm_id`.
    pub pm_id: Option<u64>,
    /// `name`.
    pub name: Option<String>,
    /// `pm2_env.status`.
    pub status: Option<String>,
    /// `monit.cpu`, as the decimal text of the number.
    pub cpu: Option<String>,
    /// `monit.memory`, in bytes.
    pub memory: Option<u64>,
    /// `pm2_env.pm_uptime`, the start time in epoch milliseconds.
    pub uptime: Option<u64>,
    /// `pm2_env.restart_time`.
    pub restarts: Option<u64>,
}

/// The plain values of a `RawRecord`.
pub struct RawView {
    pub pm_id: Option<u64>,
    pub name: Option<Seq<char>>,
    pub status: Option<Seq<char>>,
    pub cpu: Option<Seq<char>>,
    pub memory: Option<u64>,
    pub uptime: Option<u64>,
    pub restarts: Option<u64>,
}

/// The view of an optional string.
pub open spec fn opt_text(o: Option<String>) -> Option<Seq<char>> {
    match o {
        Some(s) => Some(s@),
        None => None,
    }
}

impl View for RawRecord {
    type V = RawView;

    open spec fn view(&self) -> RawView {
        RawView {
            pm_id: self.pm_id,
            name: opt_text(self.name),
            status: opt_text(self.status),
            cpu: opt_text(self.cpu),
            memory: self.memory,
            uptime: self.uptime,
            restarts: self.restarts,
        }
    }
}

/// One process as shown to the user: a snapshot taken at listing time.
#[derive(Debug)]
pub struct ManagedProcess {
    pub pm_id: u32,
    pub name: String,
    pub status: String,
    pub cpu: String,
    pub memory: String,
    pub uptime: String,
    pub restarts: u32,
}

/// The plain values of a `ManagedProcess`.
pub struct ProcessView {
    pub pm_id: u32,
    pub name: Seq<char>,
    pub status: Seq<char>,
    pub cpu: Seq<char>,
    pub memory: Seq<char>,
    pub uptime: Seq<char>,
    pub restarts: u32,
}

impl View for ManagedProcess {
    type V = ProcessView;

    open spec fn view(&self) -> ProcessView {
        ProcessView {
            pm_id: self.pm_id,
            name: self.name@,
            status: self.status@,
            cpu: self.cpu@,
            memory: self.memory@,
            uptime: self.uptime@,
            restarts: self.restarts,
        }
    }
}

/// A string field, or `default` where it is absent.
pub open spec fn text_or(field: Option<Seq<char>>, default: Seq<char>) -> Seq<char> {
    match field {
        Some(s) => s,
        None => default,
    }
}

/// A number field, or zero where it is absent.
pub open spec fn number_or_zero(field: Option<u64>) -> u64 {
    match field {
        Some(n) => n,
        None => 0,
    }
}

/// The low 32 bits of a number.
pub open spec fn low_u32(n: u64) -> u32 {
    (n % 4294967296) as u32
}

/// The display record of an entry read at wall-clock time `now_secs`.
pub open spec fn process_of(raw: RawView, now_secs: u64) -> ProcessView {
    ProcessView {
        pm_id: low_u32(number_or_zero(raw.pm_id)),
        name: text_or(raw.name, Seq::empty()),
        status: text_or(raw.status, "unknown"@),
        cpu: text_or(raw.cpu, "0"@) + "%"@,
        memory: memory_text(number_or_zero(raw.memory)),
        uptime: uptime_text(number_or_zero(raw.uptime), now_secs),
        restarts: low_u32(number_or_zero(raw.restarts)),
    }
}

fn number_or_zero_exec(field: Option<u64>) -> (r: u64)
    ensures
        r == number_or_zero(field),
{
    match field {
        Some(n) => n,
        None => 0,
    }
}

fn low_u32_exec(n: u64) -> (r: u32)
    ensures
        r == low_u32(n),
{
    (n % 4294967296) as u32
}

fn text_or_exec(field: Option<String>, default: &str) -> (r: String)
    ensures
        r@ == text_or(opt_text(field), default@),
{
    match field {
        Some(s) => s,
        None => String::from_str(default),
    }
}

/// Makes the display record of a listing entry; every absent field takes
/// its default (id 0, empty name, status "unknown", cpu 0, memory 0, no
/// start time, no restarts).
pub fn process_from_raw(raw: RawRecord, now_secs: u64) -> (r: ManagedProcess)
    ensures
        r@ == process_of(raw@, now_secs),
{
    let ghost raw0 = raw@;
    let pm_id = low_u32_exec(number_or_zero_exec(raw.pm_id));
    let memory = format_memory(number_or_zero_exec(raw.memory));
    let uptime = calculate_uptime(number_or_zero_exec(raw.uptime), now_secs);
    let restarts = low_u32_exec(number_or_zero_exec(raw.restarts));
    let name = text_or_exec(raw.name, "");
    let status = text_or_exec(raw.status, "unknown");
    let mut cpu = text_or_exec(raw.cpu, "0");
    cpu.append("%");
    proof {
        reveal_strlit("");
    }
    let r = ManagedProcess { pm_id, name, status, cpu, memory, uptime, restarts };
    assert(r@.name =~= process_of(raw0, now_secs).name);
    r
}

/// An entry without a name shows an empty name, and one without a status
/// shows the status "unknown"; so for the other fields with their defaults.
pub proof fn lemma_absent_fields_default(raw: RawView, now_secs: u64)
    ensures
        raw.name is None ==> process_of(raw, now_secs).name == Seq::<char>::empty(),
        raw.status is None ==> process_of(raw, now_secs).status == "unknown"@,
        raw.cpu is None ==> process_of(raw, now_secs).cpu == "0"@ + "%"@,
        raw.pm_id is None ==> process_of(raw, now_secs).pm_id == 0,
        raw.restarts is None ==> process_of(raw, now_secs).restarts == 0,
        raw.memory is None ==> process_of(raw, now_secs).memory == memory_text(0),
        raw.uptime is None ==> process_of(raw, now_secs).uptime == uptime_text(0, now_secs),
{
}

/// Whether an entry lacked a field, or held one with another type, so that
/// its record shows a default there.
pub open spec fn was_defaulted(raw: RawView) -> bool {
    raw.pm_id is None || raw.name is None || raw.status is None || raw.cpu is None
        || raw.memory is None || raw.uptime is None || raw.restarts is None
}

/// Tells whether an entry needed a default for some field, so that a
/// listing can report entries of an unexpected shape.
pub fn needs_default(raw: &RawRecord) -> (r: bool)
    ensures
        r == was_defaulted(raw@),
{
    raw.pm_id.is_none() || raw.name.is_none() || raw.status.is_none() || raw.cpu.is_none()
        || raw.memory.is_none() || raw.uptime.is_none() || raw.restarts.is_none()
}

/// The index of the first `[` in `s`.
pub open spec fn first_bracket(s: Seq<char>) -> Option<int> {
    if exists|k: int| 0 <= k < s.len() && s[k] == '[' {
        Some(
            choose|k: int|
                0 <= k < s.len() && s[k] == '[' && forall|j: int| 0 <= j < k ==> s[j] != '[',
        )
    } else {
        None
    }
}

/// The listing's payload in `s`: everything from the first `[` on.
pub open spec fn payload_of(s: Seq<char>) -> Option<Seq<char>> {
    match first_bracket(s) {
        Some(k) => Some(s.subrange(k, s.len() as int)),
        None => None,
    }
}

proof fn lemma_least_bracket(s: Seq<char>, k: int)
    requires
        0 <= k < s.len(),
        s[k] == '[',
    ensures
        exists|m: int| 0 <= m < s.len() && s[m] == '[' && forall|j: int| 0 <= j < m ==> s[j] != '[',
    decreases k,
{
    if exists|j: int| 0 <= j < k && s[j] == '[' {
        let j = choose|j: int| 0 <= j < k && s[j] == '[';
        lemma_least_bracket(s, j);
    } else {
        assert(forall|j: int| 0 <= j < k ==> s[j] != '[');
    }
}

proof fn lemma_first_bracket_is(s: Seq<char>, k: int)
    requires
        0 <= k < s.len(),
        s[k] == '[',
        forall|j: int| 0 <= j < k ==> s[j] != '[',
    ensures
        first_bracket(s) == Some(k),
{
    let f = first_bracket(s)->0;
    assert(f == k) by {
        if f < k {
            assert(s[f] != '[');
        }
        if k < f {
            assert(s[k] != '[');
        }
    }
}

/// Banner text without a `[` in front of pm2's output leaves the payload,
/// and so the listing read from it, unchanged.
pub proof fn lemma_banner_ignored(banner: Seq<char>, s: Seq<char>)
    requires
        forall|j: int| 0 <= j < banner.len() ==> banner[j] != '[',
    ensures
        payload_of(banner + s) == payload_of(s),
{
    let t = banner + s;
    match first_bracket(s) {
        Some(k) => {
            let w = choose|w: int| 0 <= w < s.len() && s[w] == '[';
            lemma_least_bracket(s, w);
            assert(t[banner.len() + k] == '[');
            assert forall|j: int| 0 <= j < banner.len() + k implies t[j] != '[' by {
                if j >= banner.len() {
                    assert(t[j] == s[j - banner.len()]);
                }
            }
            lemma_first_bracket_is(t, banner.len() + k);
            assert(t.subrange(banner.len() + k, t.len() as int) =~= s.subrange(k, s.len() as int));
        },
        None => {
            assert(forall|j: int| 0 <= j < s.len() ==> s[j] != '[');
            assert forall|j: int| 0 <= j < t.len() implies t[j] != '[' by {
                if j >= banner.len() {
                    assert(t[j] == s[j - banner.len()]);
                }
            }
        },
    }
}

/// The text of the error for output without a JSON array.
pub open spec fn no_array_text() -> Seq<char> {
    "No JSON array found in pm2 output"@
}

/// The JSON payload of pm2's listing output: everything from the first `[`
/// on, past any banner text before it.
pub fn json_payload(text: &str) -> (r: Result<&str, PmError>)
    ensures
        r is Ok <==> first_bracket(text@) is Some,
        r matches Ok(p) ==> p@ == text@.subrange(first_bracket(text@)->0, text@.len() as int),
        r matches Err(e) ==> (e matches PmError::Parse(m) && m@ == no_array_text()),
{
    let n = text.unicode_len();
    let mut k: usize = 0;
    let mut found = false;
    for c in it: text.chars()
        invariant
            it.seq() == text@,
            n == text@.len(),
            !found ==> k == it.index(),
            found ==> k < text@.len() && text@[k as int] == '[',
            forall|j: int| 0 <= j < k ==> text@[j] != '[',
    {
        if !found {
            assert(it.index() < it.seq().len());
            assert(c == it.seq()[it.index() as int]);
            if c == '[' {
                found = true;
            } else {
                k = k + 1;
            }
        }
    }
    if found {
        let ghost kk = k as int;
        assert(0 <= kk < text@.len() && text@[kk] == '[' && forall|j: int|
            0 <= j < kk ==> text@[j] != '[');
        let ghost f = first_bracket(text@)->0;
        assert(f == kk) by {
            if f < kk {
                assert(text@[f] != '[');
            }
            if kk < f {
                assert(text@[kk] != '[');
            }
        }
        Ok(text.substring_char(k, n))
    } else {
        assert(forall|j: int| 0 <= j < text@.len() ==> text@[j] != '[');
        Err(PmError::Parse(String::from_str("No JSON array found in pm2 output")))
    }
}

fn owned_text(t: Option<&str>) -> (r: Option<String>)
    ensures
        t is None <==> r is None,
        r matches Some(s) ==> s@ == t->0@,
{
    match t {
        Some(x) => Some(String::from_str(x)),
        None => None,
    }
}

/// The member `inner` of the member `outer` of `v`.
pub open spec fn json_nested(v: serde_json::Value, outer: Seq<char>, inner: Seq<char>) -> Option<
    serde_json::Value,
> {
    match json_member(v, outer) {
        Some(o) => json_member(o, inner),
        None => None,
    }
}

/// The number in a value that may be absent.
pub open spec fn u64_in(x: Option<serde_json::Value>) -> Option<u64> {
    match x {
        Some(y) => json_u64(y),
        None => None,
    }
}

/// The text in a value that may be absent.
pub open spec fn str_in(x: Option<serde_json::Value>) -> Option<Seq<char>> {
    match x {
        Some(y) => json_str(y),
        None => None,
    }
}

/// The number's text in a value that may be absent.
pub open spec fn number_text_in(x: Option<serde_json::Value>) -> Option<Seq<char>> {
    match x {
        Some(y) => json_number_text(y),
        None => None,
    }
}

/// The fields read from the listing entry `v`.
pub open spec fn record_of(v: serde_json::Value) -> RawView {
    RawView {
        pm_id: u64_in(json_member(v, "pm_id"@)),
        name: str_in(json_member(v, "name"@)),
        status: str_in(json_nested(v, "pm2_env"@, "status"@)),
        cpu: number_text_in(json_nested(v, "monit"@, "cpu"@)),
        memory: u64_in(json_nested(v, "monit"@, "memory"@)),
        uptime: u64_in(json_nested(v, "pm2_env"@, "pm_uptime"@)),
        restarts: u64_in(json_nested(v, "pm2_env"@, "restart_time"@)),
    }
}

fn nested<'a>(v: &'a serde_json::Value, outer: &str, inner: &str) -> (r: Option<
    &'a serde_json::Value,
>)
    ensures
        r is Some <==> json_nested(*v, outer@, inner@) is Some,
        r matches Some(x) ==> json_nested(*v, outer@, inner@) == Some(*x),
{
    match member(v, outer) {
        Some(o) => member(o, inner),
        None => None,
    }
}

fn u64_at(x: Option<&serde_json::Value>) -> (r: Option<u64>)
    ensures
        r == u64_in(
            match x {
                Some(y) => Some(*y),
                None => None,
            },
        ),
{
    match x {
        Some(y) => y.as_u64(),
        None => None,
    }
}

fn str_at(x: Option<&serde_json::Value>) -> (r: Option<String>)
    ensures
        opt_text(r) == str_in(
            match x {
                Some(y) => Some(*y),
                None => None,
            },
        ),
{
    match x {
        Some(y) => owned_text(y.as_str()),
        None => None,
    }
}

fn number_text_at(x: Option<&serde_json::Value>) -> (r: Option<String>)
    ensures
        opt_text(r) == number_text_in(
            match x {
                Some(y) => Some(*y),
                None => None,
            },
        ),
{
    match x {
        Some(y) => number_text(y),
        None => None,
    }
}

/// Reads the fields of one listing entry: `pm_id`, `name`,
/// `pm2_env.status`, `monit.cpu`, `monit.memory`, `pm2_env.pm_uptime` and
/// `pm2_env.restart_time`, each absent where the entry lacks it or holds it
/// with another type.
pub fn read_record(v: &serde_json::Value) -> (r: RawRecord)
    ensures
        r@ == record_of(*v),
{
    let pm_id = u64_at(member(v, "pm_id"));
    let name = str_at(member(v, "name"));
    let status = str_at(nested(v, "pm2_env", "status"));
    let cpu = number_text_at(nested(v, "monit", "cpu"));
    let memory = u64_at(nested(v, "monit", "memory"));
    let uptime = u64_at(nested(v, "pm2_env", "pm_uptime"));
    let restarts = u64_at(nested(v, "pm2_env", "restart_time"));
    RawRecord { pm_id, name, status, cpu, memory, uptime, restarts }
}

/// The text of the error for a payload that is no JSON array, with
/// serde_json's description `detail`.
pub open spec fn bad_json_text(detail: Seq<char>) -> Seq<char> {
    "Failed to parse JSON: "@ + detail
}

/// The display records of the entries `values`, read at `now_secs`, in
/// order.
pub open spec fn processes_of(
    procs: Seq<ManagedProcess>,
    values: Seq<serde_json::Value>,
    now_secs: u64,
) -> bool {
    &&& procs.len() == values.len()
    &&& forall|i: int|
        0 <= i < procs.len() ==> #[trigger] procs[i]@ == process_of(record_of(values[i]), now_secs)
}

/// A listing: the display records, and for each whether its entry needed a
/// default for some field.
pub struct Listing {
    pub processes: Vec<ManagedProcess>,
    pub defaulted: Vec<bool>,
}

/// Reads pm2's JSON listing output `text` at wall-clock time `now_secs`
/// (epoch seconds): the payload from the first `[` on is read as a JSON
/// array, and each of its entries becomes one display record, in order.
/// Each record is flagged where its entry lacked a field or held one with
/// another type, so that entries of an unexpected shape can be reported.
pub fn parse_listing(text: &str, now_secs: u64) -> (r: Result<Listing, PmError>)
    ensures
        first_bracket(text@) is None ==> (r matches Err(PmError::Parse(m)) && m@
            == no_array_text()),
        first_bracket(text@) matches Some(k) ==> {
            let payload = text@.subrange(k, text@.len() as int);
            match json_array_values(payload) {
                None => r matches Err(PmError::Parse(m)) && exists|d: Seq<char>|
                    m@ == bad_json_text(d),
                Some(values) => r matches Ok(l) && processes_of(l.processes@, values, now_secs)
                    && l.defaulted@.len() == values.len() && forall|i: int|
                    0 <= i < values.len() ==> #[trigger] l.defaulted@[i] == was_defaulted(
                        record_of(values[i]),
                    ),
            }
        },
{
    let payload = match json_payload(text) {
        Ok(p) => p,
        Err(e) => {
            return Err(e);
        },
    };
    let values = match parse_json_array(payload) {
        Ok(v) => v,
        Err(e) => {
            let detail = json_error_text(&e);
            let mut msg = String::from_str("Failed to parse JSON: ");
            msg.append(detail.as_str());
            assert(msg@ == bad_json_text(detail@));
            return Err(PmError::Parse(msg));
        },
    };
    let mut processes: Vec<ManagedProcess> = Vec::new();
    let mut defaulted: Vec<bool> = Vec::new();
    for i in 0..values.len()
        invariant
            processes@.len() == i,
            defaulted@.len() == i,
            forall|j: int|
                0 <= j < i ==> #[trigger] processes@[j]@ == process_of(
                    record_of(values@[j]),
                    now_secs,
                ),
            forall|j: int|
                0 <= j < i ==> #[trigger] defaulted@[j] == was_defaulted(record_of(values@[j])),
    {
        let raw = read_record(&values[i]);
        defaulted.push(needs_default(&raw));
        processes.push(process_from_raw(raw, now_secs));
    }
    Ok(Listing { processes, defaulted })
}

/// The display records of pm2's JSON listing output `text`, read at
/// wall-clock time `now_secs`, as `parse_listing` makes them.
pub fn parse_process_list(text: &str, now_secs: u64) -> (r: Result<Vec<ManagedProcess>, PmError>)
    ensures
        first_bracket(text@) is None ==> (r matches Err(PmError::Parse(m)) && m@
            == no_array_text()),
        first_bracket(text@) matches Some(k) ==> {
            let payload = text@.subrange(k, text@.len() as int);
            match json_array_values(payload) {
                None => r matches Err(PmError::Parse(m)) && exists|d: Seq<char>|
                    m@ == bad_json_text(d),
                Some(values) => r matches Ok(v) && processes_of(v@, values, now_secs),
            }
        },
{
    match parse_listing(text, now_secs) {
        Ok(l) => Ok(l.processes),
        Err(e) => Err(e),
    }
}

} // verus!
