//! Properties that hold across calls and for every state: what one operation
//! undoes of another, what every operation keeps, and where repetition ends.

use vstd::prelude::*;
use vstd::utf8::{encode_scalar, encode_utf8, length_of_first_scalar};
use crate::strs::{bytes_with_insert, bytes_with_remove, decimal, utf8_len};
use crate::scroll::{ScrollState, sat_sub, sat_add_usize, min_nat};
use crate::state::ui::{next_index, prev_index, animation_step, SidebarAnimation};
use crate::state::config::{ApprovalMode, SandboxMode};
use crate::state::config_editor::{next_approval, next_sandbox};
use crate::state::welcome::{RecentSessionInfo, recent_after};
use crate::iocraft::chat::{truncated, wrapped, chunks, segment_rows, concat_rows, replace_crlf, cr_to_lf, prefixed_texts, prefixed_segments, prefix_rows, width_after};
use crate::text::{split_on, find_char, lemma_find_char_bound};
use crate::text::{parse_usize_spec, digits_value, all_digits, is_digit};
use crate::fuzzy_finder::{SortMode, next_sort_mode, FileEntry, results_for, base_results, mode_sorted, arranged, matched, match_pred, keys_of};
use crate::state::input::{InputState, navigated_up, navigated_down};
use crate::sorting::{SortKey, key_lt, is_stable_order, pos_before, lemma_key_asymmetric, lex_lt};
use crate::files::tree::{paths_sorted, path_key, path_keys};
use crate::files::browser::{FileBrowserApp, BrowserKey, browse_key_result, finder_key_result, entries_view, open_set, differ_only_at, lemma_flatten_toggle_row};
use crate::settings_state::{Settings, group_items, toggled, same_settings};
use crate::theme::{ThemeVariant, variant_name, all_ascii, parse_lowered};
use crate::files::tree::{ascii_lower, ascii_lower_char};
use crate::state::header::{task_title, title_cut_ok, trimmed, first_line, prefix_within, longest_fit, last_space_before};

verus! {

/// Backspace right after typing a char at the cursor gives back the line as
/// it was: the removed scalar is exactly the one inserted.
pub proof fn law_backspace_undoes_insert(bytes: Seq<u8>, cursor: int, c: char)
    requires
        0 <= cursor <= bytes.len(),
    ensures
        bytes_with_remove(bytes_with_insert(bytes, cursor, c), cursor) == bytes,
{
    let ins = bytes_with_insert(bytes, cursor, c);
    let e = encode_scalar(c as u32);
    vstd::utf8::encode_utf8_first_scalar(seq![c]);
    assert(seq![c].drop_first() =~= Seq::<char>::empty());
    assert(encode_utf8(Seq::<char>::empty()) =~= Seq::<u8>::empty());
    assert(encode_utf8(seq![c]) == e + encode_utf8(seq![c].drop_first()));
    assert(encode_utf8(seq![c]) =~= e);
    assert(ins.skip(cursor) =~= e + bytes.skip(cursor));
    assert((e + bytes.skip(cursor))[0] == e[0]);
    assert(length_of_first_scalar(e + bytes.skip(cursor)) == length_of_first_scalar(e));
    assert(ins.take(cursor) =~= bytes.take(cursor));
    assert((e + bytes.skip(cursor)).skip(e.len() as int) =~= bytes.skip(cursor));
    assert(bytes_with_remove(ins, cursor) =~= bytes);
}

/// Scrolling down `n` rows and back up `n` rows returns to the same offset
/// when the way down is not stopped by the last page.
pub proof fn law_scroll_down_up_round_trip(s: ScrollState, n: usize)
    requires
        s.offset + n <= s.max_off(),
    ensures
        sat_sub(min_nat(sat_add_usize(s.offset as nat, n as nat), s.max_off()), n as nat) == s.offset,
{
}

/// Stepping forward and then back through a list returns to the same item,
/// unless the forward step was stopped by the end of the list.
pub proof fn law_next_then_prev_returns(i: usize, total: nat)
    requires
        i + 1 < total,
        total <= usize::MAX,
    ensures
        prev_index(next_index(Some(i), total), total) == Some(i),
{
}

/// Stepping through a list never selects past its end: from a selection in
/// range (or none), both directions land in range.
pub proof fn law_selection_stays_in_range(sel: Option<usize>, total: nat)
    requires
        sel matches Some(i) ==> i < total,
    ensures
        next_index(sel, total) matches Some(j) ==> j < total,
        prev_index(sel, total) matches Some(j) ==> j < total,
{
}

/// A sidebar animation, stepped once per frame, is over within five frames.
pub proof fn law_sidebar_animation_ends(anim: Option<SidebarAnimation>)
    requires
        anim matches Some(SidebarAnimation::Showing { width }) ==> width <= 20,
        anim matches Some(SidebarAnimation::Hiding { width }) ==> width <= 20,
    ensures
        animation_step(animation_step(animation_step(animation_step(animation_step(anim))))) is None,
{
}

/// The approval mode, the sandbox mode and the finder sort mode each cycle
/// through their three values.
pub proof fn law_mode_cycles_have_period_three(a: ApprovalMode, s: SandboxMode, m: SortMode)
    ensures
        next_approval(next_approval(next_approval(a))) == a,
        next_approval(a) != a,
        next_sandbox(next_sandbox(next_sandbox(s))) == s,
        next_sandbox(s) != s,
        next_sort_mode(next_sort_mode(next_sort_mode(m))) == m,
        next_sort_mode(m) != m,
{
}

/// Moving the config editor's focus to the next field and back returns to
/// the same field.
pub proof fn law_config_field_next_prev(i: nat)
    requires
        i < 5,
    ensures
        ((i + 1) % 5 + 4) % 5 == i,
        ((i + 4) % 5 + 1) % 5 == i,
{
}

/// The recent-session list holds at most three entries, starts with the one
/// just recorded, and never lists an id twice.
pub proof fn law_recent_sessions_bounded(l: Seq<RecentSessionInfo>, e: RecentSessionInfo)
    requires
        forall|i: int, j: int| 0 <= i < j < l.len() ==> (#[trigger] l[i]).id@ != (#[trigger] l[j]).id@,
    ensures
        recent_after(l, e).len() <= 3,
        recent_after(l, e)[0] == e,
        forall|i: int, j: int|
            0 <= i < j < recent_after(l, e).len() ==> (#[trigger] recent_after(l, e)[i]).id@ != (#[trigger] recent_after(l, e)[j]).id@,
{
    let pred = |s: RecentSessionInfo| s.id@ != e.id@;
    let kept = l.filter(pred);
    let all = seq![e] + kept;
    lemma_filter_keeps_distinct_ids(l, pred);
    assert forall|i: int, j: int| 0 <= i < j < all.len() implies (#[trigger] all[i]).id@ != (#[trigger] all[j]).id@ by {
        if i == 0 {
            l.lemma_filter_pred(pred, j - 1);
        }
    }
}

proof fn lemma_filter_keeps_distinct_ids(l: Seq<RecentSessionInfo>, pred: spec_fn(RecentSessionInfo) -> bool)
    requires
        forall|i: int, j: int| 0 <= i < j < l.len() ==> (#[trigger] l[i]).id@ != (#[trigger] l[j]).id@,
    ensures
        forall|i: int, j: int|
            0 <= i < j < l.filter(pred).len() ==> (#[trigger] l.filter(pred)[i]).id@ != (#[trigger] l.filter(pred)[j]).id@,
    decreases l.len(),
{
    reveal(Seq::filter);
    if l.len() > 0 {
        let d = l.drop_last();
        assert forall|i: int, j: int| 0 <= i < j < d.len() implies (#[trigger] d[i]).id@ != (#[trigger] d[j]).id@ by {
            assert(d[i] == l[i] && d[j] == l[j]);
        }
        lemma_filter_keeps_distinct_ids(d, pred);
        let f = d.filter(pred);
        if pred(l.last()) {
            assert forall|i: int| 0 <= i < f.len() implies (#[trigger] f[i]).id@ != l.last().id@ by {
                assert(f.contains(f[i]));
                d.lemma_filter_contains_rev(pred, f[i]);
                let k = choose|k: int| 0 <= k < d.len() && d[k] == f[i];
                assert(l[k] == d[k]);
                assert(l[l.len() - 1] == l.last());
            }
        }
    }
}

/// A truncated text never exceeds its limit.
pub proof fn law_truncated_fits(value: Seq<char>, max_chars: nat)
    ensures
        truncated(value, max_chars).len() <= max_chars,
{
}

proof fn lemma_chunks_fit(seg: Seq<char>, w: nat)
    requires
        w > 0,
    ensures
        forall|i: int| 0 <= i < chunks(seg, w).len() ==> (#[trigger] chunks(seg, w)[i]).len() <= w,
    decreases seg.len(),
{
    if seg.len() > w {
        lemma_chunks_fit(seg.skip(w as int), w);
        let rest = chunks(seg.skip(w as int), w);
        assert forall|i: int| 0 <= i < chunks(seg, w).len() implies (#[trigger] chunks(seg, w)[i]).len() <= w by {
            if i > 0 {
                assert(chunks(seg, w)[i] == rest[i - 1]);
            }
        }
    }
}

proof fn lemma_concat_rows_fit(segs: Seq<Seq<char>>, w: nat)
    requires
        w > 0,
    ensures
        forall|i: int| 0 <= i < concat_rows(segs, w).len() ==> (#[trigger] concat_rows(segs, w)[i]).len() <= w,
    decreases segs.len(),
{
    if segs.len() > 0 {
        lemma_chunks_fit(segs[0], w);
        lemma_concat_rows_fit(segs.drop_first(), w);
        let a = segment_rows(segs[0], w);
        let b = concat_rows(segs.drop_first(), w);
        assert forall|i: int| 0 <= i < concat_rows(segs, w).len() implies (#[trigger] concat_rows(segs, w)[i]).len() <= w by {
            if i < a.len() {
                assert(concat_rows(segs, w)[i] == a[i]);
            } else {
                assert(concat_rows(segs, w)[i] == b[i - a.len()]);
            }
        }
    }
}

/// Hard-wrapped rows are never wider than the width they were wrapped to.
pub proof fn law_wrapped_rows_fit(content: Seq<char>, width: nat)
    requires
        width > 0,
    ensures
        forall|i: int| 0 <= i < wrapped(content, width).len() ==> (#[trigger] wrapped(content, width)[i]).len() <= width,
{
    let segs = crate::text::split_on(crate::iocraft::chat::cr_to_lf(crate::iocraft::chat::replace_crlf(content)), '\n');
    lemma_concat_rows_fit(segs, width);
}

proof fn lemma_digit_char_value(m: nat)
    requires
        m < 10,
    ensures
        is_digit(crate::strs::digit_char(m)),
        (crate::strs::digit_char(m) as u32) - ('0' as u32) == m,
{
}

proof fn lemma_decimal_digits(n: nat)
    ensures
        decimal(n).len() > 0,
        all_digits(decimal(n)),
        digits_value(decimal(n)) == n,
    decreases n,
{
    lemma_digit_char_value(n % 10);
    if n < 10 {
        assert(decimal(n).drop_last() =~= Seq::<char>::empty());
        assert(digits_value(Seq::<char>::empty()) == 0);
        assert(decimal(n).last() == crate::strs::digit_char(n));
    } else {
        assert(n == (n / 10) * 10 + n % 10) by (nonlinear_arith);
        lemma_decimal_digits(n / 10);
        let d = decimal(n);
        assert(d.drop_last() =~= decimal(n / 10));
        assert forall|j: int| 0 <= j < d.len() implies is_digit(#[trigger] d[j]) by {
            if j < d.len() - 1 {
                assert(d[j] == decimal(n / 10)[j]);
            }
        }
    }
}

/// Parsing a number printed in decimal gives the number back.
pub proof fn law_parse_printed_number(n: usize)
    ensures
        parse_usize_spec(decimal(n as nat)) == Some(n),
{
    lemma_decimal_digits(n as nat);
}

/// Recovering a draft: with history present and no entry selected, going up
/// into the history and straight back down gives back the line being typed.
pub proof fn law_history_up_down_restores_draft(s0: InputState, s1: InputState, s2: InputState)
    requires
        s0.message_history@.len() > 0,
        s0.history_index.is_none(),
        s0.temp_buffer.is_none(),
        navigated_up(s0, s1),
        navigated_down(s1, s2),
    ensures
        s2.buffer@ == s0.buffer@,
        s2.history_index.is_none(),
        s2.temp_buffer.is_none(),
        s2.message_history@ == s0.message_history@,
{
    let h = s0.message_history@;
    assert(h.len() == s0.message_history.len());
    assert(s1.message_history@ == h);
    assert(s1.history_index == Some((h.len() - 1) as usize));
    assert(s1.temp_buffer == if s0.buffer@.len() > 0 { Some(s0.buffer) } else { None::<String> });
    if s0.buffer@.len() == 0 {
        assert(s0.buffer@ =~= Seq::<char>::empty());
    }
}

/// `ups[i + 1]` is `ups[i]` after one `navigate_up`.
pub open spec fn up_step(ups: Seq<InputState>, i: int) -> bool {
    navigated_up(ups[i], ups[i + 1])
}

/// `downs[i + 1]` is `downs[i]` after one `navigate_down`.
pub open spec fn down_step(downs: Seq<InputState>, i: int) -> bool {
    navigated_down(downs[i], downs[i + 1])
}

/// The line kept aside when navigation starts from `s0`.
pub open spec fn kept_aside(s0: InputState) -> Option<String> {
    if s0.buffer@.len() > 0 { Some(s0.buffer) } else { None }
}

proof fn lemma_ups(ups: Seq<InputState>, j: int)
    requires
        ups.len() >= 2,
        ups[0].message_history@.len() > 0,
        ups[0].history_index.is_none(),
        ups[0].temp_buffer.is_none(),
        forall|i: int| 0 <= i < ups.len() - 1 ==> #[trigger] up_step(ups, i),
        1 <= j < ups.len(),
        j <= ups[0].message_history@.len(),
    ensures
        ups[j].history_index == Some((ups[0].message_history@.len() - j) as usize),
        ups[j].temp_buffer == kept_aside(ups[0]),
        ups[j].message_history@ == ups[0].message_history@,
        ups[j].is_fork_mode == ups[0].is_fork_mode,
        ups[j].fork_point_index == ups[0].fork_point_index,
    decreases j,
{
    let h = ups[0].message_history@;
    assert(h.len() == ups[0].message_history.len());
    if j == 1 {
        assert(up_step(ups, 0));
    } else {
        lemma_ups(ups, j - 1);
        assert(up_step(ups, j - 1));
    }
}

proof fn lemma_downs(downs: Seq<InputState>, k: int, h: Seq<String>, t: Option<String>, m: int)
    requires
        1 <= k <= h.len(),
        downs.len() == k + 1,
        downs[0].history_index == Some((h.len() - k) as usize),
        downs[0].temp_buffer == t,
        downs[0].message_history@ == h,
        forall|i: int| 0 <= i < downs.len() - 1 ==> #[trigger] down_step(downs, i),
        0 <= m < k,
    ensures
        downs[m].history_index == Some((h.len() - k + m) as usize),
        downs[m].temp_buffer == t,
        downs[m].message_history@ == h,
    decreases m,
{
    if m > 0 {
        lemma_downs(downs, k, h, t, m - 1);
        assert(down_step(downs, m - 1));
        assert(h.len() == downs[m - 1].message_history.len());
    }
}

/// Recovering a draft after browsing back: going up `k` times into the
/// history (at most its length) and down `k` times gives back the line being
/// typed, with the cursor at its end and nothing kept aside; one more step
/// down changes nothing.
pub proof fn law_history_k_up_k_down_restores_draft(ups: Seq<InputState>, downs: Seq<InputState>)
    requires
        ups.len() >= 2,
        ups.len() - 1 <= ups[0].message_history@.len(),
        ups[0].history_index.is_none(),
        ups[0].temp_buffer.is_none(),
        forall|i: int| 0 <= i < ups.len() - 1 ==> #[trigger] up_step(ups, i),
        downs.len() == ups.len(),
        downs[0] == ups[ups.len() - 1],
        forall|i: int| 0 <= i < downs.len() - 1 ==> #[trigger] down_step(downs, i),
    ensures
        downs.last().buffer@ == ups[0].buffer@,
        downs.last().cursor == downs.last().bytes().len(),
        downs.last().history_index.is_none(),
        downs.last().temp_buffer.is_none(),
        downs.last().message_history@ == ups[0].message_history@,
        forall|s: InputState| navigated_down(downs.last(), s) ==> s == downs.last(),
{
    let k = ups.len() - 1;
    let h = ups[0].message_history@;
    lemma_ups(ups, k);
    lemma_downs(downs, k, h, kept_aside(ups[0]), k - 1);
    assert(down_step(downs, k - 1));
    assert(h.len() == downs[k - 1].message_history.len());
    assert(downs.last() == downs[k]);
    if ups[0].buffer@.len() == 0 {
        assert(ups[0].buffer@ =~= Seq::<char>::empty());
    }
}

/// No two consecutive history entries are the same message.
pub open spec fn no_repeats_in_a_row(h: Seq<String>) -> bool {
    forall|i: int| 0 < i < h.len() ==> (#[trigger] h[i])@ != h[i - 1]@
}

/// Adding a message to the history (which skips a repeat of the newest one)
/// keeps consecutive entries distinct.
pub proof fn law_history_never_repeats(h: Seq<String>, m: String)
    requires
        no_repeats_in_a_row(h),
    ensures
        no_repeats_in_a_row(if h.len() > 0 && h.last()@ == m@ { h } else { h.push(m) }),
{
    if !(h.len() > 0 && h.last()@ == m@) {
        let h2 = h.push(m);
        assert forall|i: int| 0 < i < h2.len() implies (#[trigger] h2[i])@ != h2[i - 1]@ by {
            if i < h.len() {
                assert(h2[i] == h[i] && h2[i - 1] == h[i - 1]);
            } else {
                assert(h2[i - 1] == h.last());
            }
        }
    }
}

proof fn lemma_arranged_from(mode: SortMode, src: Seq<FileEntry>, scores: Seq<u32>, out: Seq<FileEntry>)
    requires
        arranged(mode, src, scores, out),
    ensures
        out.len() == src.len(),
        forall|k: int| 0 <= k < out.len() ==> src.contains(#[trigger] out[k]),
{
    let p = choose|p: Seq<usize>|
        #![trigger is_stable_order(keys_of(mode, src, scores), p)]
        is_stable_order(keys_of(mode, src, scores), p) && out.len() == p.len()
            && forall|k: int| 0 <= k < p.len() ==> #[trigger] out[k] == src[p[k] as int];
    assert forall|k: int| 0 <= k < out.len() implies src.contains(#[trigger] out[k]) by {
        assert(p[k] < keys_of(mode, src, scores).len());
        assert(out[k] == src[p[k] as int]);
    }
}

/// The finder only lists files it was given, never more of them than it has:
/// `match_count() <= total_file_count()`.
pub proof fn law_finder_results_come_from_files(files: Seq<FileEntry>, pattern: Seq<char>, mode: SortMode, out: Seq<FileEntry>)
    requires
        results_for(files, pattern, mode, out),
    ensures
        out.len() <= files.len(),
        forall|k: int| 0 <= k < out.len() ==> files.contains(#[trigger] out[k]),
{
    let base = choose|base: Seq<FileEntry>| #[trigger] base_results(files, pattern, base) && mode_sorted(mode, base, out);
    if pattern.len() > 0 {
        let m = matched(files, pattern);
        lemma_arranged_from(SortMode::Relevance, m, crate::fuzzy_finder::match_scores(m, pattern), base);
        files.lemma_filter_len(match_pred(pattern));
        assert forall|k: int| 0 <= k < base.len() implies files.contains(#[trigger] base[k]) by {
            assert(m.contains(base[k]));
            files.lemma_filter_contains_rev(match_pred(pattern), base[k]);
        }
    }
    if mode != SortMode::Relevance {
        lemma_arranged_from(mode, base, Seq::empty(), out);
    }
}

/// A stable order lists keys in nondecreasing order.
pub proof fn law_stable_order_is_sorted(keys: Seq<SortKey>, p: Seq<usize>)
    requires
        is_stable_order(keys, p),
    ensures
        forall|a: int, b: int| 0 <= a < b < p.len() ==> !key_lt(#[trigger] keys[p[b] as int], #[trigger] keys[p[a] as int]),
{
    assert forall|a: int, b: int| 0 <= a < b < p.len() implies !key_lt(#[trigger] keys[p[b] as int], #[trigger] keys[p[a] as int]) by {
        assert(pos_before(keys, p[a] as int, p[b] as int));
        if key_lt(keys[p[a] as int], keys[p[b] as int]) {
            lemma_key_asymmetric(keys[p[a] as int], keys[p[b] as int]);
        } else {
            crate::sorting::lemma_key_irreflexive(keys[p[a] as int]);
        }
    }
}

/// Listed workspace files come in path order: no later path sorts before an
/// earlier one.
pub proof fn law_file_list_in_path_order(src: Seq<Seq<char>>, out: Seq<Seq<char>>)
    requires
        paths_sorted(src, out),
    ensures
        out.len() == src.len(),
        forall|a: int, b: int| 0 <= a < b < out.len() ==> !lex_lt(#[trigger] path_key(out[b]), #[trigger] path_key(out[a])),
{
    let p = choose|p: Seq<usize>|
        #![trigger is_stable_order(path_keys(src), p)]
        is_stable_order(path_keys(src), p) && out.len() == p.len()
            && forall|k: int| 0 <= k < p.len() ==> #[trigger] out[k] == src[p[k] as int];
    law_stable_order_is_sorted(path_keys(src), p);
    assert forall|a: int, b: int| 0 <= a < b < out.len() implies !lex_lt(#[trigger] path_key(out[b]), #[trigger] path_key(out[a])) by {
        let ka = path_keys(src)[p[a] as int];
        let kb = path_keys(src)[p[b] as int];
        assert(!key_lt(kb, ka));
        assert(out[a] == src[p[a] as int]);
        assert(out[b] == src[p[b] as int]);
    }
}

proof fn lemma_utf8_len_three_dots(s: Seq<char>)
    ensures
        utf8_len(s + "..."@) == utf8_len(s) + 3,
{
    reveal_strlit("...");
    let d = s.push('.');
    let e = d.push('.');
    crate::strs::lemma_encode_utf8_push(s, '.');
    crate::strs::lemma_encode_utf8_push(d, '.');
    crate::strs::lemma_encode_utf8_push(e, '.');
    assert(s + "..."@ =~= e.push('.'));
}

/// A task title never runs past 53 bytes: 50 of the message and "...".
pub proof fn law_task_title_is_short(m: Seq<char>)
    requires
        title_cut_ok(trimmed(first_line(m))),
    ensures
        utf8_len(task_title(m)) <= 53,
{
    let f = trimmed(first_line(m));
    reveal_strlit("New Session");
    lemma_ascii_utf8_len("New Session"@);
    if f.len() > 0 && utf8_len(f) > 50 {
        assert(f.take(0) =~= Seq::<char>::empty());
        lemma_longest_fit_exists(f, 50, 0);
        lemma_longest_fit_exists(f, 47, 0);
        let k50 = prefix_within(f, 50);
        let j = last_space_before(f, k50 as int);
        if j >= 0 && utf8_len(f.take(j)) > 30 {
            lemma_last_space_before_range(f, k50 as int);
            lemma_utf8_len_three_dots(f.take(j));
            crate::strs::lemma_utf8_len_take_mono(f, j, k50 as int);
        } else {
            let k47 = prefix_within(f, 47);
            lemma_utf8_len_three_dots(f.take(k47 as int));
        }
    }
}

proof fn lemma_last_space_before_range(s: Seq<char>, k: int)
    requires
        0 <= k <= s.len(),
    ensures
        -1 <= last_space_before(s, k) < k,
    decreases k,
{
    if k > 0 && s[k - 1] != ' ' {
        lemma_last_space_before_range(s, k - 1);
    }
}

proof fn lemma_longest_fit_exists(s: Seq<char>, n: nat, i: nat)
    requires
        i <= s.len(),
        utf8_len(s.take(i as int)) <= n,
    ensures
        exists|k: nat| #[trigger] longest_fit(s, n, k),
    decreases s.len() - i,
{
    if i == s.len() || utf8_len(s.take(i as int + 1)) > n {
        assert(longest_fit(s, n, i));
    } else {
        lemma_longest_fit_exists(s, n, i + 1);
    }
}

proof fn lemma_ascii_utf8_len(s: Seq<char>)
    requires
        forall|i: int| 0 <= i < s.len() ==> (#[trigger] s[i] as u32) <= 0x7F,
    ensures
        utf8_len(s) == s.len(),
    decreases s.len(),
{
    if s.len() > 0 {
        assert forall|i: int| 0 <= i < s.drop_first().len() implies (#[trigger] s.drop_first()[i] as u32) <= 0x7F by {
            assert(s.drop_first()[i] == s[i + 1]);
        }
        lemma_ascii_utf8_len(s.drop_first());
        assert((s[0] as u32) <= 0x7F);
    }
}


/// Opening the file finder with `@` and dismissing it with Esc leaves the
/// browser's tree as it was: the same files, open directories, rows and
/// selection, with the finder closed and its query empty.
pub proof fn law_finder_dismiss_keeps_tree(
    a: FileBrowserApp,
    b: FileBrowserApp,
    c: FileBrowserApp,
    r1: (crate::files::browser::FileBrowserAction, crate::files::browser::BrowserEffect),
    r2: (crate::files::browser::FileBrowserAction, crate::files::browser::BrowserEffect),
)
    requires
        !a.finder.active,
        browse_key_result(a, BrowserKey::Char('@'), b, r1),
        finder_key_result(b, BrowserKey::Esc, c, r2),
    ensures
        !c.finder.active,
        c.finder.query@.len() == 0,
        c.files == a.files,
        c.root == a.root,
        c.expanded_dirs == a.expanded_dirs,
        c.visible_entries == a.visible_entries,
        c.selected_index == a.selected_index,
        c.tree_scroll == a.tree_scroll,
        c.content_scroll == a.content_scroll,
{
}


proof fn flip_twice_auto_save_conversations(t: Settings, n1: Settings, n2: Settings)
    requires
        toggled(t, group_items(0, t)[0], n1),
        toggled(n1, group_items(0, n1)[0], n2),
    ensures
        same_settings(n2, t),
{
    reveal(group_items);
    reveal_strlit("auto_save_conversations");
    reveal_strlit("true");
    reveal_strlit("false");
    assert("true"@.len() == 4 && "false"@.len() == 5);
    assert(n1.ui.auto_save_conversations == !t.ui.auto_save_conversations);
    assert(n2.ui.auto_save_conversations == t.ui.auto_save_conversations);
}

proof fn flip_twice_show_tool_executions(t: Settings, n1: Settings, n2: Settings)
    requires
        toggled(t, group_items(0, t)[1], n1),
        toggled(n1, group_items(0, n1)[1], n2),
    ensures
        same_settings(n2, t),
{
    reveal(group_items);
    reveal_strlit("auto_save_conversations");
    reveal_strlit("show_tool_executions");
    reveal_strlit("true");
    reveal_strlit("false");
    assert("true"@.len() == 4 && "false"@.len() == 5);
    assert("show_tool_executions"@.len() == 20 && "auto_save_conversations"@.len() == 23);
    assert(n1.ui.show_tool_executions == !t.ui.show_tool_executions);
    assert(n2.ui.show_tool_executions == t.ui.show_tool_executions);
}

proof fn flip_twice_sound_effects(t: Settings, n1: Settings, n2: Settings)
    requires
        toggled(t, group_items(0, t)[2], n1),
        toggled(n1, group_items(0, n1)[2], n2),
    ensures
        same_settings(n2, t),
{
    reveal(group_items);
    reveal_strlit("auto_save_conversations");
    reveal_strlit("show_tool_executions");
    reveal_strlit("sound_effects");
    reveal_strlit("true");
    reveal_strlit("false");
    assert("true"@.len() == 4 && "false"@.len() == 5);
    assert("sound_effects"@.len() == 13 && "auto_save_conversations"@.len() == 23);
    assert("sound_effects"@.len() == 13 && "show_tool_executions"@.len() == 20);
    assert(n1.ui.sound_effects == !t.ui.sound_effects);
    assert(n2.ui.sound_effects == t.ui.sound_effects);
}

proof fn flip_twice_show_line_numbers(t: Settings, n1: Settings, n2: Settings)
    requires
        toggled(t, group_items(2, t)[0], n1),
        toggled(n1, group_items(2, n1)[0], n2),
    ensures
        same_settings(n2, t),
{
    reveal(group_items);
    reveal_strlit("auto_save_conversations");
    reveal_strlit("show_tool_executions");
    reveal_strlit("sound_effects");
    reveal_strlit("theme");
    reveal_strlit("font_size");
    reveal_strlit("show_line_numbers");
    reveal_strlit("true");
    reveal_strlit("false");
    assert("true"@.len() == 4 && "false"@.len() == 5);
    assert("show_line_numbers"@.len() == 17 && "auto_save_conversations"@.len() == 23);
    assert("show_line_numbers"@.len() == 17 && "show_tool_executions"@.len() == 20);
    assert("show_line_numbers"@.len() == 17 && "sound_effects"@.len() == 13);
    assert("show_line_numbers"@.len() == 17 && "theme"@.len() == 5);
    assert("show_line_numbers"@.len() == 17 && "font_size"@.len() == 9);
    assert(n1.ui.show_line_numbers == !t.ui.show_line_numbers);
    assert(n2.ui.show_line_numbers == t.ui.show_line_numbers);
}

proof fn flip_twice_word_wrap(t: Settings, n1: Settings, n2: Settings)
    requires
        toggled(t, group_items(2, t)[1], n1),
        toggled(n1, group_items(2, n1)[1], n2),
    ensures
        same_settings(n2, t),
{
    reveal(group_items);
    reveal_strlit("auto_save_conversations");
    reveal_strlit("show_tool_executions");
    reveal_strlit("sound_effects");
    reveal_strlit("theme");
    reveal_strlit("font_size");
    reveal_strlit("show_line_numbers");
    reveal_strlit("word_wrap");
    reveal_strlit("true");
    reveal_strlit("false");
    assert("true"@.len() == 4 && "false"@.len() == 5);
    assert("word_wrap"@.len() == 9 && "auto_save_conversations"@.len() == 23);
    assert("word_wrap"@.len() == 9 && "show_tool_executions"@.len() == 20);
    assert("word_wrap"@.len() == 9 && "sound_effects"@.len() == 13);
    assert("word_wrap"@.len() == 9 && "theme"@.len() == 5);
    assert("word_wrap"@[0] != "font_size"@[0]);
    assert("word_wrap"@.len() == 9 && "show_line_numbers"@.len() == 17);
    assert(n1.ui.word_wrap == !t.ui.word_wrap);
    assert(n2.ui.word_wrap == t.ui.word_wrap);
}

proof fn flip_twice_confirm_before_quit(t: Settings, n1: Settings, n2: Settings)
    requires
        toggled(t, group_items(3, t)[1], n1),
        toggled(n1, group_items(3, n1)[1], n2),
    ensures
        same_settings(n2, t),
{
    reveal(group_items);
    reveal_strlit("auto_save_conversations");
    reveal_strlit("show_tool_executions");
    reveal_strlit("sound_effects");
    reveal_strlit("theme");
    reveal_strlit("font_size");
    reveal_strlit("show_line_numbers");
    reveal_strlit("word_wrap");
    reveal_strlit("keymap");
    reveal_strlit("confirm_before_quit");
    reveal_strlit("true");
    reveal_strlit("false");
    assert("true"@.len() == 4 && "false"@.len() == 5);
    assert("confirm_before_quit"@.len() == 19 && "auto_save_conversations"@.len() == 23);
    assert("confirm_before_quit"@.len() == 19 && "show_tool_executions"@.len() == 20);
    assert("confirm_before_quit"@.len() == 19 && "sound_effects"@.len() == 13);
    assert("confirm_before_quit"@.len() == 19 && "theme"@.len() == 5);
    assert("confirm_before_quit"@.len() == 19 && "font_size"@.len() == 9);
    assert("confirm_before_quit"@.len() == 19 && "show_line_numbers"@.len() == 17);
    assert("confirm_before_quit"@.len() == 19 && "word_wrap"@.len() == 9);
    assert("confirm_before_quit"@.len() == 19 && "keymap"@.len() == 6);
    assert(n1.ui.confirm_before_quit == !t.ui.confirm_before_quit);
    assert(n2.ui.confirm_before_quit == t.ui.confirm_before_quit);
}

proof fn flip_twice_auto_approve_safe_tools(t: Settings, n1: Settings, n2: Settings)
    requires
        toggled(t, group_items(5, t)[0], n1),
        toggled(n1, group_items(5, n1)[0], n2),
    ensures
        same_settings(n2, t),
{
    reveal(group_items);
    reveal_strlit("auto_save_conversations");
    reveal_strlit("show_tool_executions");
    reveal_strlit("sound_effects");
    reveal_strlit("theme");
    reveal_strlit("font_size");
    reveal_strlit("show_line_numbers");
    reveal_strlit("word_wrap");
    reveal_strlit("keymap");
    reveal_strlit("confirm_before_quit");
    reveal_strlit("default_provider");
    reveal_strlit("default_model");
    reveal_strlit("auto_approve_safe_tools");
    reveal_strlit("true");
    reveal_strlit("false");
    assert("true"@.len() == 4 && "false"@.len() == 5);
    assert("auto_approve_safe_tools"@[5] != "auto_save_conversations"@[5]);
    assert("auto_approve_safe_tools"@.len() == 23 && "show_tool_executions"@.len() == 20);
    assert("auto_approve_safe_tools"@.len() == 23 && "sound_effects"@.len() == 13);
    assert("auto_approve_safe_tools"@.len() == 23 && "theme"@.len() == 5);
    assert("auto_approve_safe_tools"@.len() == 23 && "font_size"@.len() == 9);
    assert("auto_approve_safe_tools"@.len() == 23 && "show_line_numbers"@.len() == 17);
    assert("auto_approve_safe_tools"@.len() == 23 && "word_wrap"@.len() == 9);
    assert("auto_approve_safe_tools"@.len() == 23 && "keymap"@.len() == 6);
    assert("auto_approve_safe_tools"@.len() == 23 && "confirm_before_quit"@.len() == 19);
    assert("auto_approve_safe_tools"@.len() == 23 && "default_provider"@.len() == 16);
    assert("auto_approve_safe_tools"@.len() == 23 && "default_model"@.len() == 13);
    assert(n1.ui.auto_approve_safe_tools == !t.ui.auto_approve_safe_tools);
    assert(n2.ui.auto_approve_safe_tools == t.ui.auto_approve_safe_tools);
}

proof fn flip_twice_enable_network_tools(t: Settings, n1: Settings, n2: Settings)
    requires
        toggled(t, group_items(5, t)[1], n1),
        toggled(n1, group_items(5, n1)[1], n2),
    ensures
        same_settings(n2, t),
{
    reveal(group_items);
    reveal_strlit("auto_save_conversations");
    reveal_strlit("show_tool_executions");
    reveal_strlit("sound_effects");
    reveal_strlit("theme");
    reveal_strlit("font_size");
    reveal_strlit("show_line_numbers");
    reveal_strlit("word_wrap");
    reveal_strlit("keymap");
    reveal_strlit("confirm_before_quit");
    reveal_strlit("default_provider");
    reveal_strlit("default_model");
    reveal_strlit("auto_approve_safe_tools");
    reveal_strlit("enable_network_tools");
    reveal_strlit("true");
    reveal_strlit("false");
    assert("true"@.len() == 4 && "false"@.len() == 5);
    assert("enable_network_tools"@.len() == 20 && "auto_save_conversations"@.len() == 23);
    assert("enable_network_tools"@[0] != "show_tool_executions"@[0]);
    assert("enable_network_tools"@.len() == 20 && "sound_effects"@.len() == 13);
    assert("enable_network_tools"@.len() == 20 && "theme"@.len() == 5);
    assert("enable_network_tools"@.len() == 20 && "font_size"@.len() == 9);
    assert("enable_network_tools"@.len() == 20 && "show_line_numbers"@.len() == 17);
    assert("enable_network_tools"@.len() == 20 && "word_wrap"@.len() == 9);
    assert("enable_network_tools"@.len() == 20 && "keymap"@.len() == 6);
    assert("enable_network_tools"@.len() == 20 && "confirm_before_quit"@.len() == 19);
    assert("enable_network_tools"@.len() == 20 && "default_provider"@.len() == 16);
    assert("enable_network_tools"@.len() == 20 && "default_model"@.len() == 13);
    assert("enable_network_tools"@.len() == 20 && "auto_approve_safe_tools"@.len() == 23);
    assert(n1.ui.enable_network_tools == !t.ui.enable_network_tools);
    assert(n2.ui.enable_network_tools == t.ui.enable_network_tools);
}

proof fn flip_twice_redact_workspace_paths(t: Settings, n1: Settings, n2: Settings)
    requires
        toggled(t, group_items(6, t)[0], n1),
        toggled(n1, group_items(6, n1)[0], n2),
    ensures
        same_settings(n2, t),
{
    reveal(group_items);
    reveal_strlit("auto_save_conversations");
    reveal_strlit("show_tool_executions");
    reveal_strlit("sound_effects");
    reveal_strlit("theme");
    reveal_strlit("font_size");
    reveal_strlit("show_line_numbers");
    reveal_strlit("word_wrap");
    reveal_strlit("keymap");
    reveal_strlit("confirm_before_quit");
    reveal_strlit("default_provider");
    reveal_strlit("default_model");
    reveal_strlit("auto_approve_safe_tools");
    reveal_strlit("enable_network_tools");
    reveal_strlit("redact_workspace_paths");
    reveal_strlit("true");
    reveal_strlit("false");
    assert("true"@.len() == 4 && "false"@.len() == 5);
    assert("redact_workspace_paths"@.len() == 22 && "auto_save_conversations"@.len() == 23);
    assert("redact_workspace_paths"@.len() == 22 && "show_tool_executions"@.len() == 20);
    assert("redact_workspace_paths"@.len() == 22 && "sound_effects"@.len() == 13);
    assert("redact_workspace_paths"@.len() == 22 && "theme"@.len() == 5);
    assert("redact_workspace_paths"@.len() == 22 && "font_size"@.len() == 9);
    assert("redact_workspace_paths"@.len() == 22 && "show_line_numbers"@.len() == 17);
    assert("redact_workspace_paths"@.len() == 22 && "word_wrap"@.len() == 9);
    assert("redact_workspace_paths"@.len() == 22 && "keymap"@.len() == 6);
    assert("redact_workspace_paths"@.len() == 22 && "confirm_before_quit"@.len() == 19);
    assert("redact_workspace_paths"@.len() == 22 && "default_provider"@.len() == 16);
    assert("redact_workspace_paths"@.len() == 22 && "default_model"@.len() == 13);
    assert("redact_workspace_paths"@.len() == 22 && "auto_approve_safe_tools"@.len() == 23);
    assert("redact_workspace_paths"@.len() == 22 && "enable_network_tools"@.len() == 20);
    assert(n1.ui.redact_workspace_paths == !t.ui.redact_workspace_paths);
    assert(n2.ui.redact_workspace_paths == t.ui.redact_workspace_paths);
}

proof fn flip_twice_anonymous_metrics(t: Settings, n1: Settings, n2: Settings)
    requires
        toggled(t, group_items(6, t)[1], n1),
        toggled(n1, group_items(6, n1)[1], n2),
    ensures
        same_settings(n2, t),
{
    reveal(group_items);
    reveal_strlit("auto_save_conversations");
    reveal_strlit("show_tool_executions");
    reveal_strlit("sound_effects");
    reveal_strlit("theme");
    reveal_strlit("font_size");
    reveal_strlit("show_line_numbers");
    reveal_strlit("word_wrap");
    reveal_strlit("keymap");
    reveal_strlit("confirm_before_quit");
    reveal_strlit("default_provider");
    reveal_strlit("default_model");
    reveal_strlit("auto_approve_safe_tools");
    reveal_strlit("enable_network_tools");
    reveal_strlit("redact_workspace_paths");
    reveal_strlit("anonymous_metrics");
    reveal_strlit("true");
    reveal_strlit("false");
    assert("true"@.len() == 4 && "false"@.len() == 5);
    assert("anonymous_metrics"@.len() == 17 && "auto_save_conversations"@.len() == 23);
    assert("anonymous_metrics"@.len() == 17 && "show_tool_executions"@.len() == 20);
    assert("anonymous_metrics"@.len() == 17 && "sound_effects"@.len() == 13);
    assert("anonymous_metrics"@.len() == 17 && "theme"@.len() == 5);
    assert("anonymous_metrics"@.len() == 17 && "font_size"@.len() == 9);
    assert("anonymous_metrics"@[0] != "show_line_numbers"@[0]);
    assert("anonymous_metrics"@.len() == 17 && "word_wrap"@.len() == 9);
    assert("anonymous_metrics"@.len() == 17 && "keymap"@.len() == 6);
    assert("anonymous_metrics"@.len() == 17 && "confirm_before_quit"@.len() == 19);
    assert("anonymous_metrics"@.len() == 17 && "default_provider"@.len() == 16);
    assert("anonymous_metrics"@.len() == 17 && "default_model"@.len() == 13);
    assert("anonymous_metrics"@.len() == 17 && "auto_approve_safe_tools"@.len() == 23);
    assert("anonymous_metrics"@.len() == 17 && "enable_network_tools"@.len() == 20);
    assert("anonymous_metrics"@.len() == 17 && "redact_workspace_paths"@.len() == 22);
    assert(n1.ui.anonymous_metrics == !t.ui.anonymous_metrics);
    assert(n2.ui.anonymous_metrics == t.ui.anonymous_metrics);
}

/// Flipping the same toggle setting twice gives back the settings it started
/// from: each flip writes the negation of the value the screen shows.
pub proof fn law_toggle_twice_restores(g: int, i: int, t: Settings, n1: Settings, n2: Settings)
    requires
        0 <= i < group_items(g, t).len(),
        group_items(g, t)[i].0 == 0,
        toggled(t, group_items(g, t)[i], n1),
        toggled(n1, group_items(g, n1)[i], n2),
    ensures
        same_settings(n2, t),
{
    if g == 0 && i == 0 {
        flip_twice_auto_save_conversations(t, n1, n2);
    } else if g == 0 && i == 1 {
        flip_twice_show_tool_executions(t, n1, n2);
    } else if g == 0 && i == 2 {
        flip_twice_sound_effects(t, n1, n2);
    } else if g == 2 && i == 0 {
        flip_twice_show_line_numbers(t, n1, n2);
    } else if g == 2 && i == 1 {
        flip_twice_word_wrap(t, n1, n2);
    } else if g == 3 && i == 1 {
        flip_twice_confirm_before_quit(t, n1, n2);
    } else if g == 5 && i == 0 {
        flip_twice_auto_approve_safe_tools(t, n1, n2);
    } else if g == 5 && i == 1 {
        flip_twice_enable_network_tools(t, n1, n2);
    } else if g == 6 && i == 0 {
        flip_twice_redact_workspace_paths(t, n1, n2);
    } else if g == 6 && i == 1 {
        flip_twice_anonymous_metrics(t, n1, n2);
    } else {
        reveal(group_items);
    }
}


/// Right on a directory row twice opens and closes it again (or closes and
/// reopens it): the open directories, the rows shown and the selection come
/// back as they were. The row's path is taken to be shown only once above it.
pub proof fn law_toggle_directory_twice_restores(
    a: FileBrowserApp,
    b: FileBrowserApp,
    c: FileBrowserApp,
    r1: (crate::files::browser::FileBrowserAction, crate::files::browser::BrowserEffect),
    r2: (crate::files::browser::FileBrowserAction, crate::files::browser::BrowserEffect),
)
    requires
        entries_view(a.visible_entries@) == a.rows(),
        a.selected_index < a.rows().len(),
        a.rows()[a.selected_index as int].3,
        forall|j: int| 0 <= j < a.selected_index ==> (#[trigger] a.rows()[j]).1 != a.rows()[a.selected_index as int].1,
        b.root == a.root,
        c.root == b.root,
        browse_key_result(a, BrowserKey::Right, b, r1),
        browse_key_result(b, BrowserKey::Right, c, r2),
    ensures
        open_set(c.expanded_dirs@) == open_set(a.expanded_dirs@),
        entries_view(c.visible_entries@) == entries_view(a.visible_entries@),
        c.selected_index == a.selected_index,
{
    let s = a.selected_index as int;
    let t = a.root@;
    let o = open_set(a.expanded_dirs@);
    let ob = open_set(b.expanded_dirs@);
    let row = a.rows()[s];
    let path = row.1;
    assert(a.selected_row() == Some(row));
    assert(differ_only_at(o, ob, path));
    lemma_flatten_toggle_row(t, 0, t[0].3, 0, o, ob, path, s);
    assert(b.rows() == crate::files::browser::flatten(t, 0, t[0].3, 0, ob));
    assert(b.selected_index == s);
    let row_b = b.rows()[s];
    assert(b.selected_row() == Some(row_b));
    assert(row_b.1 == path && row_b.3);
    assert(row_b.4 == ob.contains(path));
    assert(open_set(c.expanded_dirs@) =~= o);
    assert(c.rows() == a.rows());
}


/// A theme variant's name parses back to the variant, in any ASCII case:
/// the name is ASCII, and lowering it or its capitalised form gives it back.
pub proof fn law_theme_name_parses_back(v: ThemeVariant, shouted: Seq<char>)
    requires
        shouted.len() == variant_name(v).len(),
        forall|i: int| 0 <= i < shouted.len() ==> #[trigger] ascii_lower(shouted)[i] == variant_name(v)[i],
    ensures
        all_ascii(variant_name(v)),
        parse_lowered(ascii_lower(variant_name(v))) == Some(v),
        parse_lowered(ascii_lower(shouted)) == Some(v),
{
    reveal_strlit("iceberg");
    reveal_strlit("oxocarbon");
    assert(ascii_lower(variant_name(v)) =~= variant_name(v));
    assert(ascii_lower(shouted) =~= variant_name(v));
    assert("iceberg"@.len() != "oxocarbon"@.len());
}


proof fn lemma_ascii_lower_char(c: char)
    requires
        (c as u32) < 128,
    ensures
        (ascii_lower_char(c) as u32) < 128,
        ascii_lower_char(ascii_lower_char(c)) == ascii_lower_char(c),
{
    if 'A' <= c && c <= 'Z' {
        let b = c as u8;
        assert(65 <= b <= 90);
        let l = ((b + 32) as u8) as char;
        assert(97 <= (l as u32) <= 122);
        assert(!('A' <= l && l <= 'Z'));
    }
}

/// On ASCII text, a theme name parses the same as its lowercase does:
/// lowering ASCII text keeps it ASCII, and lowering it twice is lowering it once.
pub proof fn law_theme_parse_ignores_case(s: Seq<char>)
    requires
        all_ascii(s),
    ensures
        all_ascii(ascii_lower(s)),
        ascii_lower(ascii_lower(s)) == ascii_lower(s),
        parse_lowered(ascii_lower(ascii_lower(s))) == parse_lowered(ascii_lower(s)),
{
    assert forall|i: int| 0 <= i < s.len() implies (#[trigger] ascii_lower(s)[i] as u32) < 128
        && ascii_lower_char(ascii_lower(s)[i]) == ascii_lower(s)[i] by {
        lemma_ascii_lower_char(s[i]);
    }
    assert(ascii_lower(ascii_lower(s)) =~= ascii_lower(s));
}


/// Line breaks in `s`: each `"\r\n"` pair, and each other `'\n'` or `'\r'`.
pub open spec fn line_breaks(s: Seq<char>) -> nat
    decreases s.len(),
{
    if s.len() == 0 {
        0
    } else if s.len() >= 2 && s[0] == '\r' && s[1] == '\n' {
        1 + line_breaks(s.skip(2))
    } else if s[0] == '\n' || s[0] == '\r' {
        1 + line_breaks(s.skip(1))
    } else {
        line_breaks(s.skip(1))
    }
}

/// `s` without its `'\n'` and `'\r'` chars.
pub open spec fn strip_breaks(s: Seq<char>) -> Seq<char>
    decreases s.len(),
{
    if s.len() == 0 {
        s
    } else if s[0] == '\n' || s[0] == '\r' {
        strip_breaks(s.skip(1))
    } else {
        seq![s[0]] + strip_breaks(s.skip(1))
    }
}

/// `'\n'` chars in `s`.
pub open spec fn nl_count(s: Seq<char>) -> nat
    decreases s.len(),
{
    if s.len() == 0 { 0 } else { (if s[0] == '\n' { 1nat } else { 0nat }) + nl_count(s.skip(1)) }
}

/// `s` without its `'\n'` chars.
pub open spec fn strip_nl(s: Seq<char>) -> Seq<char>
    decreases s.len(),
{
    if s.len() == 0 {
        s
    } else if s[0] == '\n' {
        strip_nl(s.skip(1))
    } else {
        seq![s[0]] + strip_nl(s.skip(1))
    }
}

/// The rows written one after another.
pub open spec fn joined(rows: Seq<Seq<char>>) -> Seq<char>
    decreases rows.len(),
{
    if rows.len() == 0 { Seq::empty() } else { rows[0] + joined(rows.skip(1)) }
}

proof fn lemma_joined_concat(a: Seq<Seq<char>>, b: Seq<Seq<char>>)
    ensures
        joined(a + b) == joined(a) + joined(b),
    decreases a.len(),
{
    if a.len() == 0 {
        assert(a + b =~= b);
        assert(joined(a) + joined(b) =~= joined(b));
    } else {
        assert((a + b).skip(1) =~= a.skip(1) + b);
        assert((a + b)[0] == a[0]);
        lemma_joined_concat(a.skip(1), b);
        assert(a[0] + (joined(a.skip(1)) + joined(b)) =~= (a[0] + joined(a.skip(1))) + joined(b));
    }
}

proof fn lemma_nl_concat(a: Seq<char>, b: Seq<char>)
    ensures
        nl_count(a + b) == nl_count(a) + nl_count(b),
        strip_nl(a + b) == strip_nl(a) + strip_nl(b),
    decreases a.len(),
{
    if a.len() == 0 {
        assert(a + b =~= b);
        assert(strip_nl(a) + strip_nl(b) =~= strip_nl(b));
    } else {
        assert((a + b).skip(1) =~= a.skip(1) + b);
        assert((a + b)[0] == a[0]);
        lemma_nl_concat(a.skip(1), b);
        assert(seq![a[0]] + (strip_nl(a.skip(1)) + strip_nl(b)) =~= (seq![a[0]] + strip_nl(a.skip(1))) + strip_nl(b));
    }
}

proof fn lemma_nl_free(a: Seq<char>)
    requires
        forall|j: int| 0 <= j < a.len() ==> a[j] != '\n',
    ensures
        nl_count(a) == 0,
        strip_nl(a) == a,
    decreases a.len(),
{
    if a.len() > 0 {
        assert forall|j: int| 0 <= j < a.skip(1).len() implies a.skip(1)[j] != '\n' by {
            assert(a.skip(1)[j] == a[j + 1]);
        }
        lemma_nl_free(a.skip(1));
        assert(seq![a[0]] + a.skip(1) =~= a);
    }
}

proof fn lemma_single_char(c: char)
    ensures
        nl_count(seq![c]) == (if c == '\n' { 1nat } else { 0nat }),
        strip_nl(seq![c]) == (if c == '\n' { Seq::<char>::empty() } else { seq![c] }),
{
    assert(seq![c].skip(1) =~= Seq::<char>::empty());
    assert(nl_count(Seq::<char>::empty()) == 0);
    assert(strip_nl(Seq::<char>::empty()) == Seq::<char>::empty());
    assert(seq![c] + Seq::<char>::empty() =~= seq![c]);
}

proof fn lemma_joined_single(x: Seq<char>)
    ensures
        joined(seq![x]) == x,
{
    assert(seq![x].skip(1) =~= Seq::<Seq<char>>::empty());
    assert(joined(Seq::<Seq<char>>::empty()) == Seq::<char>::empty());
    assert(x + Seq::<char>::empty() =~= x);
}

/// Splitting at every `'\n'` gives one more piece than there are `'\n'`s,
/// and the pieces hold every other char, in order.
proof fn lemma_split_on_counts(s: Seq<char>)
    ensures
        split_on(s, '\n').len() == nl_count(s) + 1,
        joined(split_on(s, '\n')) == strip_nl(s),
    decreases s.len(),
{
    let k = find_char(s, '\n');
    lemma_find_char_bound(s, '\n');
    if k >= s.len() {
        assert(s.take(k as int) =~= s);
        lemma_nl_free(s);
        assert(split_on(s, '\n') == seq![s]);
        lemma_joined_single(s);
    } else {
        let head = s.take(k as int);
        let rest = s.skip(k as int + 1);
        lemma_split_on_counts(rest);
        assert forall|j: int| 0 <= j < head.len() implies head[j] != '\n' by {}
        lemma_nl_free(head);
        assert(s =~= head + (seq!['\n'] + rest));
        lemma_nl_concat(head, seq!['\n'] + rest);
        lemma_nl_concat(seq!['\n'], rest);
        lemma_single_char('\n');
        assert(strip_nl(seq!['\n']) + strip_nl(rest) =~= strip_nl(rest));
        let sp = split_on(s, '\n');
        assert(sp == seq![head] + split_on(rest, '\n'));
        lemma_joined_concat(seq![head], split_on(rest, '\n'));
        lemma_joined_single(head);
    }
}

/// Normalizing line endings keeps one `'\n'` per line break and every other char.
proof fn lemma_normalized(s: Seq<char>)
    ensures
        nl_count(cr_to_lf(replace_crlf(s))) == line_breaks(s),
        strip_nl(cr_to_lf(replace_crlf(s))) == strip_breaks(s),
    decreases s.len(),
{
    if s.len() > 0 {
        if s.len() >= 2 && s[0] == '\r' && s[1] == '\n' {
            let x = replace_crlf(s.skip(2));
            lemma_normalized(s.skip(2));
            assert(cr_to_lf(seq!['\n'] + x) =~= seq!['\n'] + cr_to_lf(x));
            lemma_nl_concat(seq!['\n'], cr_to_lf(x));
            lemma_single_char('\n');
            assert(strip_nl(seq!['\n']) + strip_nl(cr_to_lf(x)) =~= strip_nl(cr_to_lf(x)));
            assert(s.skip(1).skip(1) =~= s.skip(2));
            assert(s.skip(1)[0] == '\n');
            assert(strip_breaks(s.skip(1)) == strip_breaks(s.skip(1).skip(1)));
            assert(strip_breaks(s) == strip_breaks(s.skip(2)));
        } else {
            let x = replace_crlf(s.skip(1));
            lemma_normalized(s.skip(1));
            let c = if s[0] == '\r' { '\n' } else { s[0] };
            assert(cr_to_lf(seq![s[0]] + x) =~= seq![c] + cr_to_lf(x));
            lemma_nl_concat(seq![c], cr_to_lf(x));
            lemma_single_char(c);
            if c != '\n' {
            } else {
                assert(strip_nl(seq![c]) + strip_nl(cr_to_lf(x)) =~= strip_nl(cr_to_lf(x)));
            }
        }
    }
}

proof fn lemma_chunks_join(seg: Seq<char>, w: nat)
    requires
        w > 0,
    ensures
        joined(chunks(seg, w)) == seg,
        chunks(seg, w).len() >= 1,
    decreases seg.len(),
{
    if seg.len() <= w {
        lemma_joined_single(seg);
    } else {
        lemma_chunks_join(seg.skip(w as int), w);
        lemma_joined_concat(seq![seg.take(w as int)], chunks(seg.skip(w as int), w));
        lemma_joined_single(seg.take(w as int));
        assert(seg.take(w as int) + seg.skip(w as int) =~= seg);
    }
}

proof fn lemma_concat_rows_join(segs: Seq<Seq<char>>, w: nat)
    requires
        w > 0,
    ensures
        joined(concat_rows(segs, w)) == joined(segs),
        concat_rows(segs, w).len() >= segs.len(),
    decreases segs.len(),
{
    if segs.len() > 0 {
        lemma_concat_rows_join(segs.drop_first(), w);
        let a = segment_rows(segs[0], w);
        if segs[0].len() == 0 {
            lemma_joined_single(Seq::<char>::empty());
            assert(segs[0] =~= Seq::<char>::empty());
        } else {
            lemma_chunks_join(segs[0], w);
        }
        lemma_joined_concat(a, concat_rows(segs.drop_first(), w));
        assert(segs.skip(1) =~= segs.drop_first());
    }
}

/// Wrapping keeps every line: there is always a row, every line break starts
/// a new row (so a blank line keeps an empty row), and the rows written one
/// after another hold every char of the text that is not a line break, in order.
pub proof fn law_wrap_keeps_every_line(content: Seq<char>, width: nat)
    ensures
        wrapped(content, width).len() >= 1,
        width > 0 ==> wrapped(content, width).len() >= line_breaks(content) + 1,
        width > 0 ==> joined(wrapped(content, width)) == strip_breaks(content),
{
    if width > 0 {
        let n = cr_to_lf(replace_crlf(content));
        let segs = split_on(n, '\n');
        lemma_normalized(content);
        lemma_split_on_counts(n);
        lemma_concat_rows_join(segs, width);
    }
}

/// Groups of rows written one group after another.
pub open spec fn flatten_rows(parts: Seq<Seq<Seq<char>>>) -> Seq<Seq<char>>
    decreases parts.len(),
{
    if parts.len() == 0 { Seq::empty() } else { parts[0] + flatten_rows(parts.skip(1)) }
}

/// `rows` are `line` cut into rows of `w` chars: together they are the line,
/// every row but the last is full, the last holds the rest (at least one
/// char), and an empty line takes one empty row.
pub open spec fn cut_into_rows(line: Seq<char>, rows: Seq<Seq<char>>, w: nat) -> bool {
    &&& joined(rows) == line
    &&& rows.len() >= 1
    &&& forall|j: int| 0 <= j < rows.len() - 1 ==> (#[trigger] rows[j]).len() == w
    &&& line.len() > 0 ==> 0 < rows.last().len() <= w
    &&& line.len() == 0 ==> rows == seq![Seq::<char>::empty()]
}

proof fn lemma_chunks_cut(seg: Seq<char>, w: nat)
    requires
        w > 0,
        seg.len() > 0,
    ensures
        cut_into_rows(seg, chunks(seg, w), w),
    decreases seg.len(),
{
    lemma_chunks_join(seg, w);
    if seg.len() > w {
        let rest = seg.skip(w as int);
        lemma_chunks_cut(rest, w);
        let c = chunks(seg, w);
        let cr = chunks(rest, w);
        assert(c == seq![seg.take(w as int)] + cr);
        assert forall|j: int| 0 <= j < c.len() - 1 implies (#[trigger] c[j]).len() == w by {
            if j > 0 {
                assert(c[j] == cr[j - 1]);
            }
        }
        assert(c.last() == cr.last());
    }
}

proof fn lemma_segment_rows_cut(seg: Seq<char>, w: nat)
    requires
        w > 0,
    ensures
        cut_into_rows(seg, segment_rows(seg, w), w),
{
    if seg.len() == 0 {
        lemma_joined_single(Seq::<char>::empty());
        assert(seg =~= Seq::<char>::empty());
    } else {
        lemma_chunks_cut(seg, w);
    }
}

proof fn lemma_concat_rows_parts(segs: Seq<Seq<char>>, w: nat)
    ensures
        concat_rows(segs, w) == flatten_rows(Seq::new(segs.len(), |i: int| segment_rows(segs[i], w))),
    decreases segs.len(),
{
    let parts = Seq::new(segs.len(), |i: int| segment_rows(segs[i], w));
    if segs.len() > 0 {
        lemma_concat_rows_parts(segs.drop_first(), w);
        assert(parts.skip(1) =~= Seq::new(segs.drop_first().len(), |i: int| segment_rows(segs.drop_first()[i], w)));
    }
}

/// Wrapping follows the lines: the rows are, line after line of the text
/// (split at its line breaks), that line cut into rows of `width` chars —
/// all full but the last, and one empty row for an empty line.
pub proof fn law_wrap_cuts_each_line(content: Seq<char>, width: nat)
    requires
        width > 0,
    ensures
        exists|parts: Seq<Seq<Seq<char>>>| {
            let lines = split_on(cr_to_lf(replace_crlf(content)), '\n');
            &&& parts.len() == lines.len()
            &&& #[trigger] flatten_rows(parts) == wrapped(content, width)
            &&& forall|i: int| 0 <= i < lines.len() ==> cut_into_rows(lines[i], #[trigger] parts[i], width)
        },
{
    let lines = split_on(cr_to_lf(replace_crlf(content)), '\n');
    let parts = Seq::new(lines.len(), |i: int| segment_rows(lines[i], width));
    lemma_concat_rows_parts(lines, width);
    lemma_concat_rows_join(lines, width);
    lemma_split_on_counts(cr_to_lf(replace_crlf(content)));
    assert forall|i: int| 0 <= i < lines.len() implies cut_into_rows(lines[i], #[trigger] parts[i], width) by {
        lemma_segment_rows_cut(lines[i], width);
    }
    assert(flatten_rows(parts) == wrapped(content, width));
}

proof fn lemma_prefixed_segments_len(segs: Seq<Seq<char>>, first: bool, p: Seq<char>, c: Seq<char>, fw: nat, cw: nat)
    ensures
        prefixed_segments(segs, first, p, c, fw, cw).len() >= segs.len(),
        segs.len() > 0 && first ==> prefixed_segments(segs, first, p, c, fw, cw).len() > 0
            && prefixed_segments(segs, first, p, c, fw, cw)[0] == p + wrapped(segs[0], fw)[0],
    decreases segs.len(),
{
    if segs.len() > 0 {
        law_wrap_keeps_every_line(segs[0], fw);
        law_wrap_keeps_every_line(segs[0], cw);
        lemma_prefixed_segments_len(segs.drop_first(), false, p, c, fw, cw);
    }
}

/// A message's rows beside their prefixes: one row at least for every line of
/// the message (a blank line keeps its row), and the first row opens with the
/// first prefix.
pub proof fn law_prefixed_keeps_every_line(prefix: Seq<char>, cont: Seq<char>, content: Seq<char>, width: u16)
    ensures
        prefixed_texts(prefix, cont, content, width).len() >= nl_count(content) + 1,
        prefixed_texts(prefix, cont, content, width)[0].take(prefix.len() as int) == prefix,
{
    let segs = split_on(content, '\n');
    lemma_split_on_counts(content);
    let fw = width_after(width, prefix) as nat;
    let cw = width_after(width, cont) as nat;
    lemma_prefixed_segments_len(segs, true, prefix, cont, fw, cw);
    let r = prefixed_segments(segs, true, prefix, cont, fw, cw);
    assert(r[0].take(prefix.len() as int) =~= prefix);
}

/// A cut text keeps its start: no limit gives nothing; a text that fits comes
/// back unchanged; a longer one keeps exactly `max_chars` chars, the text's
/// first `max_chars - 1` of them and then '…'.
pub proof fn law_truncated_keeps_start(value: Seq<char>, max_chars: nat)
    ensures
        max_chars == 0 ==> truncated(value, max_chars).len() == 0,
        0 < max_chars && value.len() <= max_chars ==> truncated(value, max_chars) == value,
        0 < max_chars < value.len() ==> {
            &&& truncated(value, max_chars).len() == max_chars
            &&& forall|i: int| 0 <= i < max_chars - 1 ==> #[trigger] truncated(value, max_chars)[i] == value[i]
            &&& truncated(value, max_chars)[max_chars - 1] == '…'
        },
{
}

} // verus!
