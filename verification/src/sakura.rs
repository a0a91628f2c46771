//! A small parser for sakura-script dialogue text: backslash commands
//! (`\0`, `\1`, `\s[n]`, `\e`) interleaved with plain text runs.
//!
//! An unknown command character is skipped; a surface number that is not a
//! well-formed 32-bit decimal yields no command; text runs are flushed
//! whenever a command starts and once more at the end.

use vstd::prelude::*;

use crate::manifest::{find_char, first_index_of};
use crate::text::push_char;

verus! {

/// One parsed instruction.
#[derive(Debug)]
pub enum SakuraCommand {
    /// `\0` or `\1`: which character the following text addresses.
    Target(u8),
    /// `\s[n]`: switch to surface (pose image) `n`.
    Surface(u32),
    /// A plain text run.
    Text(String),
    /// `\e`: end of the script.
    End,
}

/// A `SakuraCommand`, seen mathematically.
pub ghost enum SakuraCommandView {
    Target(u8),
    Surface(u32),
    Text(Seq<char>),
    End,
}

impl View for SakuraCommand {
    type V = SakuraCommandView;

    open spec fn view(&self) -> SakuraCommandView {
        match self {
            SakuraCommand::Target(t) => SakuraCommandView::Target(*t),
            SakuraCommand::Surface(n) => SakuraCommandView::Surface(*n),
            SakuraCommand::Text(s) => SakuraCommandView::Text(s@),
            SakuraCommand::End => SakuraCommandView::End,
        }
    }
}

/// Whether `c` is a decimal digit.
pub open spec fn is_digit(c: char) -> bool {
    48 <= (c as u32) && (c as u32) <= 57
}

/// Whether every character of `s` is a decimal digit.
pub open spec fn all_digits(s: Seq<char>) -> bool {
    forall|k: int| 0 <= k < s.len() ==> is_digit(#[trigger] s[k])
}

/// The value of a digit string, most significant digit first.
pub open spec fn digits_val(s: Seq<char>) -> int
    decreases s.len(),
{
    if s.len() == 0 {
        0
    } else {
        digits_val(s.drop_last()) * 10 + ((s.last() as u32) - 48)
    }
}

/// What `u32::from_str` accepts: an optional leading plus, then at least
/// one digit, the value fitting in 32 bits.
pub open spec fn parse_u32_spec(s: Seq<char>) -> Option<u32> {
    let body = if s.len() > 0 && s[0] == '+' {
        s.skip(1)
    } else {
        s
    };
    if body.len() > 0 && all_digits(body) && digits_val(body) <= u32::MAX {
        Some(digits_val(body) as u32)
    } else {
        None
    }
}

/// The text-run commands a pending buffer yields: one `Text`, or nothing
/// when the buffer is empty.
pub open spec fn flush(buf: Seq<char>) -> Seq<SakuraCommandView> {
    if buf.len() > 0 {
        seq![SakuraCommandView::Text(buf)]
    } else {
        seq![]
    }
}

/// The commands of script `s` with text run `buf` pending: plain
/// characters extend the run; a backslash flushes it and starts a command.
pub open spec fn sakura_run(s: Seq<char>, buf: Seq<char>) -> Seq<SakuraCommandView>
    decreases s.len(), 1int,
{
    if s.len() == 0 {
        flush(buf)
    } else if s[0] != '\\' {
        sakura_run(s.skip(1), buf.push(s[0]))
    } else {
        flush(buf) + sakura_cmd(s.skip(1))
    }
}

/// The commands of what follows a backslash: `0`, `1` and `e` are direct
/// commands; `s` expects a bracketed surface number, consuming one
/// character after `s` even without a bracket; anything else is skipped.
pub open spec fn sakura_cmd(s: Seq<char>) -> Seq<SakuraCommandView>
    decreases s.len(), 0int,
{
    if s.len() == 0 {
        seq![]
    } else if s[0] == '0' {
        seq![SakuraCommandView::Target(0)] + sakura_run(s.skip(1), seq![])
    } else if s[0] == '1' {
        seq![SakuraCommandView::Target(1)] + sakura_run(s.skip(1), seq![])
    } else if s[0] == 'e' {
        seq![SakuraCommandView::End] + sakura_run(s.skip(1), seq![])
    } else if s[0] == 's' {
        if s.len() >= 2 && s[1] == '[' {
            let close = first_index_of(s.skip(2), ']');
            let num = s.skip(2).take(close as int);
            let cmd = match parse_u32_spec(num) {
                Some(n) => seq![SakuraCommandView::Surface(n)],
                None => seq![],
            };
            if close < s.skip(2).len() {
                cmd + sakura_run(s.skip(2).skip((close + 1) as int), seq![])
            } else {
                cmd
            }
        } else if s.len() >= 2 {
            sakura_run(s.skip(2), seq![])
        } else {
            seq![]
        }
    } else {
        sakura_run(s.skip(1), seq![])
    }
}

/// The command sequence of a whole script.
pub open spec fn sakura_commands(s: Seq<char>) -> Seq<SakuraCommandView> {
    sakura_run(s, seq![])
}

proof fn lemma_digits_val_nonneg(s: Seq<char>)
    requires
        all_digits(s),
    ensures
        digits_val(s) >= 0,
    decreases s.len(),
{
    if s.len() > 0 {
        lemma_digits_val_nonneg(s.drop_last());
    }
}

proof fn lemma_digits_val_prefix(s: Seq<char>, k: int)
    requires
        all_digits(s),
        0 <= k <= s.len(),
    ensures
        digits_val(s.take(k)) <= digits_val(s),
    decreases s.len(),
{
    if k == s.len() {
        assert(s.take(k) =~= s);
    } else {
        assert(s.drop_last().take(k) =~= s.take(k));
        assert(all_digits(s.drop_last()));
        lemma_digits_val_prefix(s.drop_last(), k);
        lemma_digits_val_nonneg(s.drop_last());
    }
}

/// Parses a 32-bit decimal as `u32::from_str` does, against
/// `parse_u32_spec`.
pub fn parse_u32_chars(s: &str) -> (r: Option<u32>)
    ensures
        r == parse_u32_spec(s@),
{
    let n = s.unicode_len();
    let mut start: usize = 0;
    if n > 0 && s.get_char(0) == '+' {
        start = 1;
    }
    let ghost body = if start == 1 {
        s@.skip(1)
    } else {
        s@
    };
    proof {
        assert(s@.subrange(start as int, n as int) =~= body);
    }
    if start >= n {
        return None;
    }
    let mut val: u64 = 0;
    let mut k = start;
    while k < n
        invariant
            n == s@.len(),
            0 <= start <= k <= n,
            start < n,
            body == s@.subrange(start as int, n as int),
            body.len() == n - start,
            forall|m: int| start <= m < k ==> is_digit(#[trigger] s@[m]),
            body == (if s@.len() > 0 && s@[0] == '+' {
                s@.skip(1)
            } else {
                s@
            }),
            val == digits_val(s@.subrange(start as int, k as int)),
            val <= u32::MAX,
        decreases n - k,
    {
        let c = s.get_char(k);
        let u = c as u32;
        if u < 48 || u > 57 {
            proof {
                assert(body[(k - start) as int] == s@[k as int]);
                assert(!is_digit(body[(k - start) as int]));
            }
            return None;
        }
        val = val * 10 + (u - 48) as u64;
        proof {
            assert(s@.subrange(start as int, (k + 1) as int).drop_last() =~= s@.subrange(
                start as int,
                k as int,
            ));
            assert(s@.subrange(start as int, (k + 1) as int).last() == s@[k as int]);
        }
        if val > 0xffff_ffff {
            proof {
                if all_digits(body) {
                    assert(body.take((k + 1 - start) as int) =~= s@.subrange(
                        start as int,
                        (k + 1) as int,
                    ));
                    lemma_digits_val_prefix(body, (k + 1 - start) as int);
                }
            }
            return None;
        }
        k += 1;
    }
    proof {
        assert(s@.subrange(start as int, n as int) == body);
        assert(forall|m: int|
            0 <= m < body.len() ==> body[m] == #[trigger] s@[m + start]);
        assert(all_digits(body));
    }
    Some(val as u32)
}

fn chars_to_string(v: &Vec<char>) -> (r: String)
    ensures
        r@ == v@,
{
    let mut s = String::new();
    let mut i: usize = 0;
    while i < v.len()
        invariant
            0 <= i <= v@.len(),
            s@ == v@.take(i as int),
        decreases v@.len() - i,
    {
        push_char(&mut s, v[i]);
        proof {
            assert(v@.take(i + 1) =~= v@.take(i as int).push(v@[i as int]));
        }
        i += 1;
    }
    proof {
        assert(v@.take(v@.len() as int) =~= v@);
    }
    s
}

/// Runs a script through the parser, yielding its commands in order, as
/// `sakura_commands` describes them.
pub fn execute_sakura_script(script: &str) -> (r: Vec<SakuraCommand>)
    ensures
        r@.map_values(|c: SakuraCommand| c@) == sakura_commands(script@),
{
    let len = script.unicode_len();
    let mut out: Vec<SakuraCommand> = Vec::new();
    let mut buf: Vec<char> = Vec::new();
    proof {
        assert(script@.skip(0) =~= script@);
        assert(out@.map_values(|c: SakuraCommand| c@) =~= Seq::<SakuraCommandView>::empty());
    }
    let mut i: usize = 0;
    while i < len
        invariant
            len == script@.len(),
            0 <= i <= len,
            sakura_commands(script@) == out@.map_values(|c: SakuraCommand| c@) + sakura_run(
                script@.skip(i as int),
                buf@,
            ),
        decreases len - i,
    {
        let ghost tail0 = script@.skip(i as int);
        proof {
            assert(tail0.len() == len - i);
            assert(tail0[0] == script@[i as int]);
        }
        let c = script.get_char(i);
        if c != '\\' {
            buf.push(c);
            proof {
                assert(tail0.skip(1) =~= script@.skip(i + 1));
            }
            i += 1;
            proof {
                assert(sakura_commands(script@) =~= out@.map_values(|c: SakuraCommand| c@) + sakura_run(script@.skip(i as int), buf@));
            }
        } else {
            let ghost outv0 = out@.map_values(|c: SakuraCommand| c@);
            let ghost buf0 = buf@;
            if buf.len() > 0 {
                let text = chars_to_string(&buf);
                out.push(SakuraCommand::Text(text));
                buf.clear();
            }
            proof {
                assert(buf@ =~= Seq::<char>::empty());
                assert(out@.map_values(|c: SakuraCommand| c@) =~= outv0 + flush(buf0));
                assert(tail0.skip(1) =~= script@.skip(i + 1));
                assert(sakura_run(tail0, buf0) == flush(buf0) + sakura_cmd(script@.skip(i + 1)));
            }
            let ghost outv1 = out@.map_values(|c: SakuraCommand| c@);
            let ghost tail1 = script@.skip(i + 1);
            if i + 1 >= len {
                proof {
                    assert(tail1 =~= Seq::<char>::empty());
                    assert(script@.skip(i + 1) =~= script@.skip((i + 1) as int));
                }
                i += 1;
                proof {
                    assert(sakura_run(script@.skip(i as int), buf@) =~= Seq::<
                        SakuraCommandView,
                    >::empty());
                    assert(sakura_commands(script@) =~= out@.map_values(|c: SakuraCommand| c@)
                        + sakura_run(script@.skip(i as int), buf@));
                }
            } else {
                proof {
                    assert(tail1.len() == len - i - 1);
                    assert(tail1[0] == script@[i + 1]);
                }
                let c2 = script.get_char(i + 1);
                if c2 == '0' {
                    out.push(SakuraCommand::Target(0));
                    proof {
                        assert(out@.map_values(|c: SakuraCommand| c@) =~= outv1.push(
                            SakuraCommandView::Target(0),
                        ));
                        assert(tail1.skip(1) =~= script@.skip(i + 2));
                    }
                    i += 2;
                    proof {
                        assert(sakura_commands(script@) =~= out@.map_values(|c: SakuraCommand| c@) + sakura_run(script@.skip(i as int), buf@));
                    }
                } else if c2 == '1' {
                    out.push(SakuraCommand::Target(1));
                    proof {
                        assert(out@.map_values(|c: SakuraCommand| c@) =~= outv1.push(
                            SakuraCommandView::Target(1),
                        ));
                        assert(tail1.skip(1) =~= script@.skip(i + 2));
                    }
                    i += 2;
                    proof {
                        assert(sakura_commands(script@) =~= out@.map_values(|c: SakuraCommand| c@) + sakura_run(script@.skip(i as int), buf@));
                    }
                } else if c2 == 'e' {
                    out.push(SakuraCommand::End);
                    proof {
                        assert(out@.map_values(|c: SakuraCommand| c@) =~= outv1.push(
                            SakuraCommandView::End,
                        ));
                        assert(tail1.skip(1) =~= script@.skip(i + 2));
                    }
                    i += 2;
                    proof {
                        assert(sakura_commands(script@) =~= out@.map_values(|c: SakuraCommand| c@) + sakura_run(script@.skip(i as int), buf@));
                    }
                } else if c2 == 's' {
                    if i + 2 < len && script.get_char(i + 2) == '[' {
                        proof {
                            assert(tail1.len() >= 2);
                            assert(tail1[1] == script@[i + 2]);
                            assert(tail1.skip(2) =~= script@.skip(i + 3));
                        }
                        let rest = script.substring_char(i + 3, len);
                        proof {
                            assert(rest@ =~= script@.skip(i + 3));
                        }
                        let rel = find_char(rest, ']');
                        let close_abs = i + 3 + rel;
                        let num = script.substring_char(i + 3, close_abs);
                        proof {
                            assert(num@ =~= script@.skip(i + 3).take(rel as int));
                        }
                        match parse_u32_chars(num) {
                            Some(n) => {
                                out.push(SakuraCommand::Surface(n));
                                proof {
                                    assert(out@.map_values(|c: SakuraCommand| c@) =~= outv1.push(
                                        SakuraCommandView::Surface(n),
                                    ));
                                }
                            },
                            None => {},
                        }
                        if close_abs < len {
                            proof {
                                assert(script@.skip(i + 3).skip((rel + 1) as int)
                                    =~= script@.skip(close_abs + 1));
                            }
                            i = close_abs + 1;
                        } else {
                            i = len;
                            proof {
                                assert(sakura_run(script@.skip(i as int), buf@) =~= Seq::<
                                    SakuraCommandView,
                                >::empty());
                            }
                        }
                    } else if i + 2 < len {
                        proof {
                            assert(tail1.len() >= 2);
                            assert(tail1[1] == script@[i + 2]);
                            assert(tail1.skip(2) =~= script@.skip(i + 3));
                        }
                        i += 3;
                    } else {
                        proof {
                            assert(tail1.len() == 1);
                        }
                        i += 2;
                        proof {
                            assert(script@.skip(i as int) =~= Seq::<char>::empty());
                            assert(sakura_run(script@.skip(i as int), buf@) =~= Seq::<
                                SakuraCommandView,
                            >::empty());
                        }
                    }
                } else {
                    proof {
                        assert(tail1.skip(1) =~= script@.skip(i + 2));
                    }
                    i += 2;
                }
            }
        }
        proof {
            assert(sakura_commands(script@) =~= out@.map_values(|c: SakuraCommand| c@)
                + sakura_run(script@.skip(i as int), buf@));
        }
    }
    proof {
        assert(script@.skip(len as int) =~= Seq::<char>::empty());
    }
    if buf.len() > 0 {
        let text = chars_to_string(&buf);
        out.push(SakuraCommand::Text(text));
    }
    proof {
        assert(out@.map_values(|c: SakuraCommand| c@) =~= sakura_commands(script@));
    }
    out
}

} // verus!
