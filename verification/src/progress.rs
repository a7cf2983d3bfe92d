//! Progress accounting: completion percentage, throughput, and their
//! rendering for the progress channel.
//!
//! The percentage is kept in hundredths of a percent (10000 is one hundred
//! percent), so it carries the two decimal places the display shows without
//! floating point; a transfer with nothing to send reports zero throughout.
//! Throughput is bytes per second formatted with binary unit scaling: B, KB,
//! MB, GB, TB at a factor of 1024, two decimal places, suffixed `/s`.

use vstd::arithmetic::div_mod::lemma_multiply_divide_lt;
use vstd::prelude::*;

verus! {

/// How much of the transfer is done, in hundredths of a percent: the counted
/// bytes over the total, scaled to 10000, truncated; 0 when there is nothing
/// to send, and capped at one hundred percent.
pub open spec fn spec_percent_hundredths(bytes: u64, total: u64) -> int {
    if total == 0 {
        0
    } else if bytes >= total {
        10000
    } else {
        (bytes * 10000) / (total as int)
    }
}

/// Computes the completion percentage in hundredths of a percent.
pub fn percent_hundredths(bytes: u64, total: u64) -> (r: u64)
    ensures
        r == spec_percent_hundredths(bytes, total),
        r <= 10000,
{
    if total == 0 {
        0
    } else if bytes >= total {
        10000
    } else {
        let q: u128 = (bytes as u128) * 10000 / (total as u128);
        proof {
            assert((bytes as int) * 10000 < (total as int) * 10000) by (nonlinear_arith)
                requires
                    bytes < total,
            ;
            lemma_multiply_divide_lt(bytes as int * 10000, total as int, 10000);
        }
        q as u64
    }
}

/// A run that counted every byte of a positive total reports exactly one
/// hundred percent in its final sample.
pub proof fn lemma_full_transfer_is_hundred_percent(total: u64)
    requires
        total > 0,
    ensures
        spec_percent_hundredths(total, total) == 10000,
{
}

/// A transfer with nothing to send reports zero percent in every sample,
/// whatever has been counted.
pub proof fn lemma_zero_total_is_zero_percent(bytes: u64)
    ensures
        spec_percent_hundredths(bytes, 0) == 0,
{
}

/// Throughput in whole bytes per second: the counted bytes over the elapsed
/// milliseconds, zero before any time has passed, saturated at the largest
/// 64-bit value.
pub open spec fn spec_speed_bytes_per_sec(bytes: u64, elapsed_ms: u64) -> int {
    if elapsed_ms == 0 {
        0
    } else if (bytes * 1000) / (elapsed_ms as int) > u64::MAX {
        u64::MAX as int
    } else {
        (bytes * 1000) / (elapsed_ms as int)
    }
}

/// Computes the throughput in whole bytes per second.
pub fn speed_bytes_per_sec(bytes: u64, elapsed_ms: u64) -> (r: u64)
    ensures
        r == spec_speed_bytes_per_sec(bytes, elapsed_ms),
{
    if elapsed_ms == 0 {
        return 0;
    }
    let q: u128 = (bytes as u128) * 1000 / (elapsed_ms as u128);
    if q > u64::MAX as u128 {
        u64::MAX
    } else {
        q as u64
    }
}

/// The decimal digits of a number, as ASCII bytes, most significant first,
/// with no leading zeros except for the number zero itself.
pub open spec fn spec_decimal(n: nat) -> Seq<u8>
    decreases n,
{
    if n < 10 {
        seq![(n + 48) as u8]
    } else {
        spec_decimal(n / 10) + seq![(n % 10 + 48) as u8]
    }
}

/// Every byte of a decimal rendering is an ASCII digit.
pub proof fn lemma_decimal_is_ascii(n: nat)
    ensures
        forall|i: int|
            0 <= i < spec_decimal(n).len() ==> 48 <= #[trigger] spec_decimal(n)[i] <= 57,
    decreases n,
{
    if n < 10 {
        assert(spec_decimal(n)[0] == (n + 48) as u8);
    } else {
        lemma_decimal_is_ascii(n / 10);
        let prefix = spec_decimal(n / 10);
        assert forall|i: int| 0 <= i < spec_decimal(n).len() implies 48 <= #[trigger] spec_decimal(
            n,
        )[i] <= 57 by {
            if i < prefix.len() {
                assert(spec_decimal(n)[i] == prefix[i]);
            } else {
                assert(spec_decimal(n)[i] == (n % 10 + 48) as u8);
            }
        }
    }
}

/// Renders a number as its decimal digits in ASCII.
pub fn u64_to_decimal(n: u64) -> (r: Vec<u8>)
    ensures
        r@ == spec_decimal(n as nat),
{
    let mut digits: Vec<u8> = Vec::new();
    let mut m: u64 = n;
    proof {
        assert(spec_decimal(m as nat) + digits@ =~= spec_decimal(n as nat));
    }
    loop
        invariant_except_break
            spec_decimal(n as nat) == spec_decimal(m as nat) + digits@,
        ensures
            digits@ == spec_decimal(n as nat),
        decreases m,
    {
        let ghost old_digits = digits@;
        let ghost old_m = m;
        let d: u8 = (m % 10) as u8 + 48;
        digits.insert(0, d);
        proof {
            assert(digits@ =~= seq![d] + old_digits);
        }
        m = m / 10;
        if m == 0 {
            proof {
                assert(spec_decimal(old_m as nat) =~= seq![d]);
                assert(digits@ =~= spec_decimal(n as nat));
            }
            break;
        }
        proof {
            assert(spec_decimal(old_m as nat) =~= spec_decimal(m as nat) + seq![d]);
            assert(spec_decimal(m as nat) + digits@ =~= spec_decimal(n as nat));
        }
    }
    digits
}

/// Which binary unit a byte count is displayed in: 0 for B up to 4 for TB.
/// Counts of a pebibyte and beyond stay in TB, the largest unit shown.
pub open spec fn spec_unit_index(n: u64) -> int {
    if n < 1024 {
        0
    } else if n < 1048576 {
        1
    } else if n < 1073741824 {
        2
    } else if n < 1099511627776 {
        3
    } else {
        4
    }
}

/// The scaling factor of a unit: 1024 raised to the unit's index.
pub open spec fn spec_unit_factor(k: int) -> int {
    if k == 0 {
        1
    } else if k == 1 {
        1024
    } else if k == 2 {
        1048576
    } else if k == 3 {
        1073741824
    } else {
        1099511627776
    }
}

/// The unit's suffix as ASCII bytes: B, KB, MB, GB or TB.
pub open spec fn spec_unit_suffix(k: int) -> Seq<u8> {
    if k == 0 {
        seq![66u8]
    } else if k == 1 {
        seq![75u8, 66u8]
    } else if k == 2 {
        seq![77u8, 66u8]
    } else if k == 3 {
        seq![71u8, 66u8]
    } else {
        seq![84u8, 66u8]
    }
}

/// A byte count scaled to its display unit, in hundredths of that unit,
/// truncated: the integer part and the two decimal places of the display.
pub open spec fn spec_size_centi(n: u64) -> int {
    (n * 100) / spec_unit_factor(spec_unit_index(n))
}

/// A byte count rendered for display: the scaled value with two decimal
/// places, then the unit's suffix.
pub open spec fn spec_format_size(n: u64) -> Seq<u8> {
    let centi = spec_size_centi(n);
    let frac = centi % 100;
    spec_decimal((centi / 100) as nat) + seq![46u8, (frac / 10 + 48) as u8, (frac % 10 + 48) as u8]
        + spec_unit_suffix(spec_unit_index(n))
}

/// Renders a byte count with binary unit scaling and two decimal places.
pub fn format_size(n: u64) -> (r: Vec<u8>)
    ensures
        r@ == spec_format_size(n),
{
    let factor: u64 = if n < 1024 {
        1
    } else if n < 1048576 {
        1024
    } else if n < 1073741824 {
        1048576
    } else if n < 1099511627776 {
        1073741824
    } else {
        1099511627776
    };
    proof {
        assert(factor == spec_unit_factor(spec_unit_index(n)));
        if n >= 1099511627776 {
            lemma_multiply_divide_lt(n as int * 100, 1099511627776, 0x80000000);
        }
    }
    let centi128: u128 = (n as u128) * 100 / (factor as u128);
    let centi: u64 = centi128 as u64;
    let int_part: u64 = centi / 100;
    let frac: u64 = centi % 100;
    let mut out = u64_to_decimal(int_part);
    out.push(46);
    out.push((frac / 10) as u8 + 48);
    out.push((frac % 10) as u8 + 48);
    if n < 1024 {
        out.push(66);
    } else if n < 1048576 {
        out.push(75);
        out.push(66);
    } else if n < 1073741824 {
        out.push(77);
        out.push(66);
    } else if n < 1099511627776 {
        out.push(71);
        out.push(66);
    } else {
        out.push(84);
        out.push(66);
    }
    proof {
        assert(out@ =~= spec_format_size(n));
    }
    out
}

/// Every byte of a formatted size is ASCII.
pub proof fn lemma_format_size_is_ascii(n: u64)
    ensures
        forall|i: int|
            0 <= i < spec_format_size(n).len() ==> #[trigger] spec_format_size(n)[i] < 128,
{
    let centi = spec_size_centi(n);
    lemma_decimal_is_ascii((centi / 100) as nat);
}

/// The characters an ASCII byte sequence reads as.
pub open spec fn ascii_chars(s: Seq<u8>) -> Seq<char> {
    Seq::new(s.len(), |i: int| s[i] as char)
}

/// Relies on String::from_utf8: ASCII bytes are valid UTF-8 and decode to
/// the string of exactly those characters.
#[verifier::external_body]
fn ascii_to_string(bytes: Vec<u8>) -> (r: String)
    requires
        forall|i: int| 0 <= i < bytes@.len() ==> bytes@[i] < 128,
    ensures
        r@ == ascii_chars(bytes@),
{
    String::from_utf8(bytes).unwrap_or_default()
}

/// The throughput display: the speed with binary unit scaling, suffixed
/// `/s`. The two extra bytes are the ASCII slash and `s`.
pub open spec fn spec_throughput(bytes: u64, elapsed_ms: u64) -> Seq<u8> {
    spec_format_size(spec_speed_bytes_per_sec(bytes, elapsed_ms) as u64) + seq![47u8, 115u8]
}

/// Renders the throughput line of a progress sample.
pub fn throughput_string(bytes: u64, elapsed_ms: u64) -> (r: String)
    ensures
        r@ == ascii_chars(spec_throughput(bytes, elapsed_ms)),
{
    let speed = speed_bytes_per_sec(bytes, elapsed_ms);
    let mut out = format_size(speed);
    out.push(47);
    out.push(115);
    proof {
        assert(out@ =~= spec_throughput(bytes, elapsed_ms));
        lemma_format_size_is_ascii(speed);
    }
    ascii_to_string(out)
}

/// One snapshot for the progress channel: how much of the transfer is done,
/// in hundredths of a percent, and the current throughput as text.
pub struct ProgressSample {
    pub percent_hundredths: u64,
    pub throughput: String,
}

/// Milliseconds passed between two clock readings, zero if the clock
/// appears to have gone backwards.
pub open spec fn spec_elapsed_ms(start_ms: u64, now_ms: u64) -> u64 {
    if now_ms >= start_ms {
        (now_ms - start_ms) as u64
    } else {
        0
    }
}

/// Byte counting for a running transfer.
///
/// The tracker is fed every write's byte count while monitoring is on — the
/// sender switches monitoring on only around file payloads, so framing
/// metadata never counts toward throughput — and answers, at most once per
/// sampling interval, that a progress sample is due. Clock readings come in
/// as milliseconds from the caller's monotonic clock.
pub struct ProgressTracker {
    /// Sum of all file sizes found by the pre-scan; fixed at construction.
    pub total_size: u64,
    /// Payload bytes counted so far, saturating.
    pub bytes_sent: u64,
    /// Clock reading at construction.
    pub start_ms: u64,
    /// Clock reading of the most recent sample.
    pub last_sample_ms: u64,
    /// Whether writes are currently counted.
    pub monitor: bool,
}

/// Shortest time between two periodic progress samples, in milliseconds.
/// A final sample is emitted unconditionally when the transfer completes.
pub const SAMPLE_INTERVAL_MS: u64 = 500;

impl ProgressTracker {
    /// Starts tracking a transfer of `total_size` payload bytes at clock
    /// reading `now_ms`, with monitoring off.
    pub fn new(total_size: u64, now_ms: u64) -> (r: ProgressTracker)
        ensures
            r == (ProgressTracker {
                total_size,
                bytes_sent: 0,
                start_ms: now_ms,
                last_sample_ms: now_ms,
                monitor: false,
            }),
    {
        ProgressTracker {
            total_size,
            bytes_sent: 0,
            start_ms: now_ms,
            last_sample_ms: now_ms,
            monitor: false,
        }
    }

    /// Starts counting writes: the payload of a file is about to stream.
    pub fn start_monitor(&mut self)
        ensures
            *final(self) == (ProgressTracker { monitor: true, ..*old(self) }),
    {
        self.monitor = true;
    }

    /// Stops counting writes: a file's payload is done and framing metadata
    /// follows.
    pub fn stop_monitor(&mut self)
        ensures
            *final(self) == (ProgressTracker { monitor: false, ..*old(self) }),
    {
        self.monitor = false;
    }

    /// Accounts for one write of `n` bytes at clock reading `now_ms`, and
    /// says whether a periodic progress sample is due now. While monitoring
    /// is off nothing is counted and no sample is due; a due sample resets
    /// the sampling clock.
    pub fn record_write(&mut self, n: u64, now_ms: u64) -> (due: bool)
        ensures
            final(self).total_size == old(self).total_size,
            final(self).start_ms == old(self).start_ms,
            final(self).monitor == old(self).monitor,
            !old(self).monitor ==> *final(self) == *old(self) && !due,
            old(self).monitor ==> final(self).bytes_sent == (if old(self).bytes_sent + n
                <= u64::MAX {
                (old(self).bytes_sent + n) as u64
            } else {
                u64::MAX
            }),
            old(self).monitor ==> due == (now_ms >= old(self).last_sample_ms
                + SAMPLE_INTERVAL_MS),
            old(self).monitor && due ==> final(self).last_sample_ms == now_ms,
            old(self).monitor && !due ==> final(self).last_sample_ms == old(self).last_sample_ms,
    {
        if !self.monitor {
            return false;
        }
        self.bytes_sent = if n <= u64::MAX - self.bytes_sent {
            self.bytes_sent + n
        } else {
            u64::MAX
        };
        if now_ms >= self.last_sample_ms && now_ms - self.last_sample_ms >= SAMPLE_INTERVAL_MS {
            self.last_sample_ms = now_ms;
            true
        } else {
            false
        }
    }

    /// Takes a progress sample at clock reading `now_ms`: the completion
    /// percentage of the bytes counted so far, and the throughput over the
    /// time since construction.
    pub fn sample(&self, now_ms: u64) -> (r: ProgressSample)
        ensures
            r.percent_hundredths == spec_percent_hundredths(self.bytes_sent, self.total_size),
            r.percent_hundredths <= 10000,
            r.throughput@ == ascii_chars(
                spec_throughput(self.bytes_sent, spec_elapsed_ms(self.start_ms, now_ms)),
            ),
    {
        let elapsed = self.total_time_ms(now_ms);
        ProgressSample {
            percent_hundredths: percent_hundredths(self.bytes_sent, self.total_size),
            throughput: throughput_string(self.bytes_sent, elapsed),
        }
    }

    /// Milliseconds since the tracker was built: the whole run's wall-clock
    /// time, reported once at the end of a send.
    pub fn total_time_ms(&self, now_ms: u64) -> (r: u64)
        ensures
            r == spec_elapsed_ms(self.start_ms, now_ms),
    {
        if now_ms >= self.start_ms {
            now_ms - self.start_ms
        } else {
            0
        }
    }
}

} // verus!
