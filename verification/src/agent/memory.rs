//! Reading `/proc/meminfo`.
//!
//! Linux reports memory in kB counters. The figures that matter on Proxmox
//! and other Linux hosts are: actual used memory is `MemTotal - MemAvailable`
//! (not `MemTotal - MemFree`), and cached memory is page cache plus the
//! reclaimable slab (`Cached + SReclaimable`), which can be freed.
use crate::text::{lemma_lines_nonempty, lines, parse_u64, parse_u64_token, same_chars, split_lines, split_words, words, chars_of};
use vstd::prelude::*;

verus! {

/// The counters of `/proc/meminfo` that the agent reads, in kB.
/// A counter whose line is absent reads 0.
pub struct MeminfoCounters {
    pub total_kb: u64,
    pub free_kb: u64,
    pub available_kb: u64,
    pub buffers_kb: u64,
    pub cached_kb: u64,
    pub swap_total_kb: u64,
    pub swap_free_kb: u64,
    pub slab_reclaimable_kb: u64,
}

/// The memory breakdown that the agent reports, in kB.
pub struct MemoryKb {
    /// Total physical RAM (`MemTotal`).
    pub total_kb: u64,
    /// Actual used memory: total minus available (negative if the kernel
    /// reports more available than total).
    pub used_kb: i128,
    /// Page cache plus reclaimable slab (`Cached + SReclaimable`).
    pub cached_kb: u64,
    /// Memory available for new allocations (`MemAvailable`, or its estimate).
    pub available_kb: u64,
    /// Buffer cache (`Buffers`).
    pub buffers_kb: u64,
    /// Total swap (`SwapTotal`).
    pub swap_total_kb: u64,
    /// Swap in use (`SwapTotal - SwapFree`).
    pub swap_used_kb: u64,
}

/// The key and value of one line: its first word, and its second word read
/// as a number (0 where it is not one). Lines of fewer than two words give nothing.
pub open spec fn line_entry(line: Seq<char>) -> Option<(Seq<char>, u64)> {
    let w = words(line);
    if w.len() < 2 {
        None
    } else {
        Some(
            (
                w[0],
                match parse_u64(w[1]) {
                    Some(v) => v,
                    None => 0,
                },
            ),
        )
    }
}

/// The value of the last line among `ls` whose key is `key`; 0 if there is none.
pub open spec fn counter_in(ls: Seq<Seq<char>>, key: Seq<char>) -> u64
    decreases ls.len(),
{
    if ls.len() == 0 {
        0
    } else {
        let e = line_entry(ls.last());
        if e is Some && e.unwrap().0 == key {
            e.unwrap().1
        } else {
            counter_in(ls.drop_last(), key)
        }
    }
}

/// The counters that `content` (the text of `/proc/meminfo`) holds.
pub open spec fn counters_of(content: Seq<char>) -> MeminfoCounters {
    let ls = lines(content);
    MeminfoCounters {
        total_kb: counter_in(ls, "MemTotal:"@),
        free_kb: counter_in(ls, "MemFree:"@),
        available_kb: counter_in(ls, "MemAvailable:"@),
        buffers_kb: counter_in(ls, "Buffers:"@),
        cached_kb: counter_in(ls, "Cached:"@),
        swap_total_kb: counter_in(ls, "SwapTotal:"@),
        swap_free_kb: counter_in(ls, "SwapFree:"@),
        slab_reclaimable_kb: counter_in(ls, "SReclaimable:"@),
    }
}

fn line_entry_of(line: &Vec<char>) -> (r: Option<(Vec<char>, u64)>)
    ensures
        match (r, line_entry(line@)) {
            (Some(x), Some(y)) => x.0@ == y.0 && x.1 == y.1,
            (None, None) => true,
            _ => false,
        },
{
    let w = split_words(line);
    if w.len() < 2 {
        return None;
    }
    let value = match parse_u64_token(&w[1]) {
        Some(v) => v,
        None => 0,
    };
    let key = w[0].clone();
    Some((key, value))
}

/// Reads the counters from the text of `/proc/meminfo`: each line is split
/// into words; a line of at least two words sets the counter that its first
/// word names to its second word read as a number (0 where it is not one);
/// a later line wins over an earlier one.
pub fn read_meminfo_counters(content: &str) -> (c: MeminfoCounters)
    ensures
        c == counters_of(content@),
{
    let chars = chars_of(content);
    let ls = split_lines(&chars);
    let ghost all = lines(content@);
    assert(crate::text::rows(ls@) == all);
    let mut c = MeminfoCounters {
        total_kb: 0,
        free_kb: 0,
        available_kb: 0,
        buffers_kb: 0,
        cached_kb: 0,
        swap_total_kb: 0,
        swap_free_kb: 0,
        slab_reclaimable_kb: 0,
    };
    let mut i: usize = 0;
    while i < ls.len()
        invariant
            i <= ls.len(),
            ls@.len() == all.len(),
            forall|j: int| 0 <= j < ls@.len() ==> #[trigger] ls@[j]@ == all[j],
            c.total_kb == counter_in(all.take(i as int), "MemTotal:"@),
            c.free_kb == counter_in(all.take(i as int), "MemFree:"@),
            c.available_kb == counter_in(all.take(i as int), "MemAvailable:"@),
            c.buffers_kb == counter_in(all.take(i as int), "Buffers:"@),
            c.cached_kb == counter_in(all.take(i as int), "Cached:"@),
            c.swap_total_kb == counter_in(all.take(i as int), "SwapTotal:"@),
            c.swap_free_kb == counter_in(all.take(i as int), "SwapFree:"@),
            c.slab_reclaimable_kb == counter_in(all.take(i as int), "SReclaimable:"@),
        decreases ls.len() - i,
    {
        let ghost prefix = all.take(i + 1);
        proof {
            assert(prefix.drop_last() == all.take(i as int));
            assert(prefix.last() == all[i as int]);
            assert(ls@[i as int]@ == all[i as int]);
        }
        match line_entry_of(&ls[i]) {
            Some((key, value)) => {
                if same_chars(&key, "MemTotal:") {
                    c.total_kb = value;
                }
                if same_chars(&key, "MemFree:") {
                    c.free_kb = value;
                }
                if same_chars(&key, "MemAvailable:") {
                    c.available_kb = value;
                }
                if same_chars(&key, "Buffers:") {
                    c.buffers_kb = value;
                }
                if same_chars(&key, "Cached:") {
                    c.cached_kb = value;
                }
                if same_chars(&key, "SwapTotal:") {
                    c.swap_total_kb = value;
                }
                if same_chars(&key, "SwapFree:") {
                    c.swap_free_kb = value;
                }
                if same_chars(&key, "SReclaimable:") {
                    c.slab_reclaimable_kb = value;
                }
            },
            None => {},
        }
        i = i + 1;
    }
    assert(all.take(ls.len() as int) == all);
    c
}


/// Memory available for new allocations: `MemAvailable`, or, where the kernel
/// does not report it (it reads 0), the estimate `MemFree + Buffers + Cached + SReclaimable`.
pub open spec fn effective_available(c: MeminfoCounters) -> int {
    if c.available_kb == 0 {
        c.free_kb + c.buffers_kb + c.cached_kb + c.slab_reclaimable_kb
    } else {
        c.available_kb as int
    }
}

/// The counters allow the breakdown in `u64` arithmetic: the available
/// estimate and the cache sum do not overflow, and swap in use is not negative.
pub open spec fn breakdown_defined(c: MeminfoCounters) -> bool {
    &&& effective_available(c) <= u64::MAX
    &&& c.cached_kb + c.slab_reclaimable_kb <= u64::MAX
    &&& c.swap_free_kb <= c.swap_total_kb
}

/// The breakdown of `c`.
pub open spec fn breakdown_of(c: MeminfoCounters) -> MemoryKb {
    MemoryKb {
        total_kb: c.total_kb,
        used_kb: (c.total_kb - effective_available(c)) as i128,
        cached_kb: (c.cached_kb + c.slab_reclaimable_kb) as u64,
        available_kb: effective_available(c) as u64,
        buffers_kb: c.buffers_kb,
        swap_total_kb: c.swap_total_kb,
        swap_used_kb: (c.swap_total_kb - c.swap_free_kb) as u64,
    }
}

/// Computes the breakdown of `c`; `None` exactly where `u64` arithmetic on the
/// counters would overflow (an available estimate or cache sum above `u64::MAX`,
/// or more free swap than total swap).
pub fn memory_breakdown(c: &MeminfoCounters) -> (r: Option<MemoryKb>)
    ensures
        r is Some <==> breakdown_defined(*c),
        r matches Some(m) ==> m == breakdown_of(*c),
{
    let available: u64 = if c.available_kb == 0 {
        let a = c.free_kb.checked_add(c.buffers_kb);
        let b = match a {
            Some(x) => x.checked_add(c.cached_kb),
            None => None,
        };
        let d = match b {
            Some(x) => x.checked_add(c.slab_reclaimable_kb),
            None => None,
        };
        match d {
            Some(x) => x,
            None => {
                return None;
            },
        }
    } else {
        c.available_kb
    };
    let cached = match c.cached_kb.checked_add(c.slab_reclaimable_kb) {
        Some(x) => x,
        None => {
            return None;
        },
    };
    if c.swap_free_kb > c.swap_total_kb {
        return None;
    }
    let used: i128 = (c.total_kb as i128) - (available as i128);
    Some(
        MemoryKb {
            total_kb: c.total_kb,
            used_kb: used,
            cached_kb: cached,
            available_kb: available,
            buffers_kb: c.buffers_kb,
            swap_total_kb: c.swap_total_kb,
            swap_used_kb: c.swap_total_kb - c.swap_free_kb,
        },
    )
}

/// Parses the text of `/proc/meminfo` into the memory breakdown: the counters
/// of `read_meminfo_counters`, then `memory_breakdown`. `None` exactly where
/// the counters overflow `u64` arithmetic.
pub fn parse_proc_meminfo(content: &str) -> (r: Option<MemoryKb>)
    ensures
        r is Some <==> breakdown_defined(counters_of(content@)),
        r matches Some(m) ==> m == breakdown_of(counters_of(content@)),
{
    let c = read_meminfo_counters(content);
    memory_breakdown(&c)
}


/// Used memory is what is not available: used plus available is the total.
pub proof fn lemma_used_plus_available_is_total(c: MeminfoCounters)
    requires
        breakdown_defined(c),
    ensures
        breakdown_of(c).used_kb + breakdown_of(c).available_kb == c.total_kb,
{
}

/// Where the kernel reports `MemAvailable`, free memory (`MemFree`) plays no
/// part in the breakdown: used memory is not `MemTotal - MemFree`.
pub proof fn lemma_free_memory_ignored_when_available_reported(c: MeminfoCounters, d: MeminfoCounters)
    requires
        c.available_kb != 0,
        d == (MeminfoCounters { free_kb: d.free_kb, ..c }),
    ensures
        breakdown_defined(c) == breakdown_defined(d),
        breakdown_of(c) == breakdown_of(d),
        breakdown_of(c).available_kb == c.available_kb,
{
}

proof fn lemma_lines_append_line(content: Seq<char>, line: Seq<char>)
    requires
        !line.contains('\n'),
    ensures
        lines(content + seq!['\n'] + line) == lines(content).push(line),
    decreases line.len(),
{
    if line.len() == 0 {
        assert(content + seq!['\n'] + line == content.push('\n'));
        assert((content + seq!['\n'] + line).drop_last() == content);
        assert(line =~= Seq::<char>::empty());
    } else {
        let shorter = line.drop_last();
        assert(!shorter.contains('\n')) by {
            if shorter.contains('\n') {
                let k = choose|k: int| 0 <= k < shorter.len() && shorter[k] == '\n';
                assert(line[k] == '\n');
            }
        }
        lemma_lines_append_line(content, shorter);
        let whole = content + seq!['\n'] + line;
        assert(whole.drop_last() == content + seq!['\n'] + shorter);
        assert(whole.last() == line.last());
        assert(line.last() != '\n') by {
            assert(line[line.len() - 1] == line.last());
        }
        assert(shorter.push(line.last()) == line);
        let prev = lines(content).push(shorter);
        assert(prev.update(prev.len() - 1, prev.last().push(line.last())) =~= lines(content).push(line));
    }
}

/// A line appended to the text sets the counter it names, whatever earlier
/// lines said: the last line for a key wins.
pub proof fn lemma_appended_line_sets_counter(content: Seq<char>, line: Seq<char>, key: Seq<char>, value: u64)
    requires
        !line.contains('\n'),
        line_entry(line) == Some((key, value)),
    ensures
        counter_in(lines(content + seq!['\n'] + line), key) == value,
{
    lemma_lines_append_line(content, line);
    assert(lines(content).push(line).last() == line);
}


/// One of the eight keys that the agent reads.
pub open spec fn is_meminfo_key(k: Seq<char>) -> bool {
    ||| k == "MemTotal:"@
    ||| k == "MemFree:"@
    ||| k == "MemAvailable:"@
    ||| k == "Buffers:"@
    ||| k == "Cached:"@
    ||| k == "SwapTotal:"@
    ||| k == "SwapFree:"@
    ||| k == "SReclaimable:"@
}

/// A line that sets a counter: at least two words, the first one a read key.
pub open spec fn is_read_line(line: Seq<char>) -> bool {
    line_entry(line) is Some && is_meminfo_key(line_entry(line).unwrap().0)
}

/// The lines among `ls` that set a counter, in order.
pub open spec fn read_lines(ls: Seq<Seq<char>>) -> Seq<Seq<char>>
    decreases ls.len(),
{
    if ls.len() == 0 {
        Seq::<Seq<char>>::empty()
    } else {
        let prev = read_lines(ls.drop_last());
        if is_read_line(ls.last()) {
            prev.push(ls.last())
        } else {
            prev
        }
    }
}

proof fn lemma_counter_only_reads(ls: Seq<Seq<char>>, key: Seq<char>)
    requires
        is_meminfo_key(key),
    ensures
        counter_in(ls, key) == counter_in(read_lines(ls), key),
    decreases ls.len(),
{
    if ls.len() > 0 {
        lemma_counter_only_reads(ls.drop_last(), key);
        let prev = read_lines(ls.drop_last());
        if is_read_line(ls.last()) {
            assert(prev.push(ls.last()).drop_last() == prev);
            assert(prev.push(ls.last()).last() == ls.last());
        }
    }
}

proof fn lemma_read_lines_concat(x: Seq<Seq<char>>, y: Seq<Seq<char>>)
    ensures
        read_lines(x + y) == read_lines(x) + read_lines(y),
    decreases y.len(),
{
    if y.len() == 0 {
        assert(x + y == x);
        assert(read_lines(x) + read_lines(y) == read_lines(x));
    } else {
        lemma_read_lines_concat(x, y.drop_last());
        assert((x + y).drop_last() == x + y.drop_last());
        assert((x + y).last() == y.last());
        if is_read_line(y.last()) {
            assert(read_lines(x) + read_lines(y.drop_last()).push(y.last()) == (read_lines(x)
                + read_lines(y.drop_last())).push(y.last()));
        }
    }
}

proof fn lemma_lines_concat(a: Seq<char>, b: Seq<char>)
    ensures
        lines(a + seq!['\n'] + b) == lines(a) + lines(b),
    decreases b.len(),
{
    lemma_lines_nonempty(a);
    if b.len() == 0 {
        assert(a + seq!['\n'] + b == a.push('\n'));
        assert(a.push('\n').drop_last() == a);
        assert(lines(a) + lines(b) =~= lines(a).push(Seq::<char>::empty()));
    } else {
        let shorter = b.drop_last();
        lemma_lines_concat(a, shorter);
        lemma_lines_nonempty(shorter);
        let whole = a + seq!['\n'] + b;
        assert(whole.drop_last() == a + seq!['\n'] + shorter);
        assert(whole.last() == b.last());
        let prev = lines(a) + lines(shorter);
        if b.last() == '\n' {
            assert(prev.push(Seq::<char>::empty()) =~= lines(a) + lines(shorter).push(
                Seq::<char>::empty(),
            ));
        } else {
            let ls = lines(shorter);
            assert(prev.update(prev.len() - 1, prev.last().push(b.last())) =~= lines(a) + ls.update(
                ls.len() - 1,
                ls.last().push(b.last()),
            ));
        }
    }
}

proof fn lemma_lines_of_one_line(l: Seq<char>)
    requires
        !l.contains('\n'),
    ensures
        lines(l) == seq![l],
    decreases l.len(),
{
    if l.len() == 0 {
        assert(l =~= Seq::<char>::empty());
    } else {
        let shorter = l.drop_last();
        assert(!shorter.contains('\n')) by {
            if shorter.contains('\n') {
                let k = choose|k: int| 0 <= k < shorter.len() && shorter[k] == '\n';
                assert(l[k] == '\n');
            }
        }
        lemma_lines_of_one_line(shorter);
        assert(l.last() != '\n') by {
            assert(l[l.len() - 1] == l.last());
        }
        assert(shorter.push(l.last()) =~= l);
        assert(seq![shorter].update(0, shorter.push(l.last())) =~= seq![l]);
    }
}

/// The counters are determined by the lines that set one: two texts whose
/// lines with a read key and a second word agree, in order, read alike,
/// whatever other lines (other keys, fewer than two words, blank lines) they hold.
pub proof fn lemma_only_read_lines_matter(c1: Seq<char>, c2: Seq<char>)
    requires
        read_lines(lines(c1)) == read_lines(lines(c2)),
    ensures
        counters_of(c1) == counters_of(c2),
{
    let keys = seq![
        "MemTotal:"@,
        "MemFree:"@,
        "MemAvailable:"@,
        "Buffers:"@,
        "Cached:"@,
        "SwapTotal:"@,
        "SwapFree:"@,
        "SReclaimable:"@,
    ];
    assert forall|i: int| 0 <= i < 8 implies counter_in(lines(c1), #[trigger] keys[i]) == counter_in(
        lines(c2),
        keys[i],
    ) by {
        lemma_counter_only_reads(lines(c1), keys[i]);
        lemma_counter_only_reads(lines(c2), keys[i]);
    }
    assert(counter_in(lines(c1), keys[0]) == counter_in(lines(c2), keys[0]));
    assert(counter_in(lines(c1), keys[1]) == counter_in(lines(c2), keys[1]));
    assert(counter_in(lines(c1), keys[2]) == counter_in(lines(c2), keys[2]));
    assert(counter_in(lines(c1), keys[3]) == counter_in(lines(c2), keys[3]));
    assert(counter_in(lines(c1), keys[4]) == counter_in(lines(c2), keys[4]));
    assert(counter_in(lines(c1), keys[5]) == counter_in(lines(c2), keys[5]));
    assert(counter_in(lines(c1), keys[6]) == counter_in(lines(c2), keys[6]));
    assert(counter_in(lines(c1), keys[7]) == counter_in(lines(c2), keys[7]));
}

/// A line inserted between two lines of the text changes nothing that is
/// read, when it sets no counter (another key, or fewer than two words):
/// the counters, hence what `parse_proc_meminfo` gives, stay the same.
pub proof fn lemma_inserted_line_is_ignored(a: Seq<char>, b: Seq<char>, l: Seq<char>)
    requires
        !l.contains('\n'),
        !is_read_line(l),
    ensures
        counters_of(a + seq!['\n'] + l + seq!['\n'] + b) == counters_of(a + seq!['\n'] + b),
        breakdown_defined(counters_of(a + seq!['\n'] + l + seq!['\n'] + b)) == breakdown_defined(
            counters_of(a + seq!['\n'] + b),
        ),
        breakdown_of(counters_of(a + seq!['\n'] + l + seq!['\n'] + b)) == breakdown_of(
            counters_of(a + seq!['\n'] + b),
        ),
{
    let with = a + seq!['\n'] + l + seq!['\n'] + b;
    assert(with == a + seq!['\n'] + (l + seq!['\n'] + b));
    lemma_lines_concat(a, l + seq!['\n'] + b);
    lemma_lines_concat(l, b);
    lemma_lines_concat(a, b);
    lemma_lines_of_one_line(l);
    assert(read_lines(seq![l]) == Seq::<Seq<char>>::empty()) by {
        assert(seq![l].drop_last() =~= Seq::<Seq<char>>::empty());
        assert(read_lines(Seq::<Seq<char>>::empty()) == Seq::<Seq<char>>::empty());
        assert(read_lines(seq![l].drop_last()) == Seq::<Seq<char>>::empty());
        assert(seq![l].last() == l);
    }
    lemma_read_lines_concat(seq![l], lines(b));
    assert(Seq::<Seq<char>>::empty() + read_lines(lines(b)) == read_lines(lines(b)));
    lemma_read_lines_concat(lines(a), seq![l] + lines(b));
    lemma_read_lines_concat(lines(a), lines(b));
    lemma_only_read_lines_matter(with, a + seq!['\n'] + b);
}

/// A first or last line that sets no counter changes nothing that is read.
pub proof fn lemma_added_first_or_last_line_is_ignored(c: Seq<char>, l: Seq<char>)
    requires
        !l.contains('\n'),
        !is_read_line(l),
    ensures
        counters_of(l + seq!['\n'] + c) == counters_of(c),
        counters_of(c + seq!['\n'] + l) == counters_of(c),
{
    lemma_lines_of_one_line(l);
    assert(read_lines(seq![l]) == Seq::<Seq<char>>::empty()) by {
        assert(seq![l].drop_last() =~= Seq::<Seq<char>>::empty());
        assert(read_lines(Seq::<Seq<char>>::empty()) == Seq::<Seq<char>>::empty());
        assert(read_lines(seq![l].drop_last()) == Seq::<Seq<char>>::empty());
        assert(seq![l].last() == l);
    }
    lemma_lines_concat(l, c);
    lemma_read_lines_concat(seq![l], lines(c));
    assert(Seq::<Seq<char>>::empty() + read_lines(lines(c)) == read_lines(lines(c)));
    lemma_only_read_lines_matter(l + seq!['\n'] + c, c);
    lemma_lines_concat(c, l);
    lemma_read_lines_concat(lines(c), seq![l]);
    assert(read_lines(lines(c)) + Seq::<Seq<char>>::empty() == read_lines(lines(c)));
    lemma_only_read_lines_matter(c + seq!['\n'] + l, c);
}


/// How each reported figure relates to the kernel's counters, for counters
/// that admit a breakdown: the total and buffers are passed through, swap in
/// use plus free swap is total swap, cached memory is page cache plus
/// reclaimable slab, used plus available is the total, and available memory
/// is `MemAvailable` when the kernel reports it and otherwise free memory
/// plus buffers, page cache and reclaimable slab.
pub proof fn lemma_breakdown_figures(c: MeminfoCounters)
    requires
        breakdown_defined(c),
    ensures
        breakdown_of(c).total_kb == c.total_kb,
        breakdown_of(c).buffers_kb == c.buffers_kb,
        breakdown_of(c).swap_total_kb == c.swap_total_kb,
        breakdown_of(c).swap_used_kb + c.swap_free_kb == c.swap_total_kb,
        breakdown_of(c).cached_kb == c.cached_kb + c.slab_reclaimable_kb,
        breakdown_of(c).used_kb + breakdown_of(c).available_kb == c.total_kb,
        c.available_kb != 0 ==> breakdown_of(c).available_kb == c.available_kb,
        c.available_kb == 0 ==> breakdown_of(c).available_kb == c.free_kb + c.buffers_kb
            + c.cached_kb + c.slab_reclaimable_kb,
{
}

/// Counters admit a breakdown exactly when the available estimate (needed
/// only without `MemAvailable`) and the cache sum fit in a `u64` and free
/// swap does not exceed total swap.
pub proof fn lemma_breakdown_defined_exactly(c: MeminfoCounters)
    ensures
        breakdown_defined(c) <==> ((c.available_kb != 0 || c.free_kb + c.buffers_kb + c.cached_kb
            + c.slab_reclaimable_kb <= u64::MAX) && c.cached_kb + c.slab_reclaimable_kb <= u64::MAX
            && c.swap_free_kb <= c.swap_total_kb),
{
}

} // verus!
