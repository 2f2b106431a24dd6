//! What the agent makes of the host's readings: its identity, which disks and
//! network interfaces it reports, and which processes rank at the top.
use crate::agent::config::AgentConfig;
use crate::text::{chars_of, has_prefix, starts_with};
use vstd::prelude::*;

verus! {

/// Static facts about the host, gathered once at start.
#[derive(Debug, PartialEq)]
pub struct SystemInfo {
    pub hostname: String,
    pub os: String,
    pub kernel: String,
    pub ip_address: Option<String>,
}

/// The text of an optional reading, or `fallback` where there is none.
pub open spec fn text_or(o: Option<String>, fallback: Seq<char>) -> Seq<char> {
    match o {
        Some(s) => s@,
        None => fallback,
    }
}

fn unwrap_text_or(o: Option<String>, fallback: &str) -> (s: String)
    ensures
        s@ == text_or(o, fallback@),
{
    match o {
        Some(s) => s,
        None => String::from_str(fallback),
    }
}

impl SystemInfo {
    /// The host facts from the system's readings, each possibly missing: the
    /// host name (`unknown` if unreadable), the OS as `<name> <version>`
    /// (`Unknown` and the empty text standing in for missing parts), the
    /// kernel version (`unknown` if missing) and the primary address.
    pub fn from_readings(
        hostname: Option<String>,
        os_name: Option<String>,
        os_version: Option<String>,
        kernel: Option<String>,
        ip_address: Option<String>,
    ) -> (info: SystemInfo)
        ensures
            info.hostname@ == text_or(hostname, "unknown"@),
            info.os@ == text_or(os_name, "Unknown"@) + " "@ + text_or(os_version, ""@),
            info.kernel@ == text_or(kernel, "unknown"@),
            info.ip_address == ip_address,
    {
        let name = unwrap_text_or(os_name, "Unknown");
        let version = unwrap_text_or(os_version, "");
        SystemInfo {
            hostname: unwrap_text_or(hostname, "unknown"),
            os: name.concat(" ").concat(version.as_str()),
            kernel: unwrap_text_or(kernel, "unknown"),
            ip_address,
        }
    }
}

/// Who is reporting: the agent's identity as sent with every report.
#[derive(Debug, PartialEq)]
pub struct AgentInfo {
    pub id: String,
    pub hostname: String,
    pub os: Option<String>,
    pub kernel: Option<String>,
    pub ip_address: Option<String>,
}

fn clone_text(o: &Option<String>) -> (r: Option<String>)
    ensures
        r == *o,
{
    match o {
        Some(s) => Some(s.clone()),
        None => None,
    }
}

impl AgentInfo {
    /// The identity sent with a report: the configured agent id, and the
    /// host's name, OS, kernel and address.
    pub fn for_report(config: &AgentConfig, sys: &SystemInfo) -> (a: AgentInfo)
        ensures
            a.id@ == config.agent_id@,
            a.hostname@ == sys.hostname@,
            a.os matches Some(o) && o@ == sys.os@,
            a.kernel matches Some(k) && k@ == sys.kernel@,
            a.ip_address == sys.ip_address,
    {
        AgentInfo {
            id: config.agent_id.clone(),
            hostname: sys.hostname.clone(),
            os: Some(sys.os.clone()),
            kernel: Some(sys.kernel.clone()),
            ip_address: clone_text(&sys.ip_address),
        }
    }
}

/// A mount point of a pseudo-filesystem, which the disk report leaves out:
/// one under `/sys`, `/proc`, `/dev`, `/run` or `/snap` (as a text prefix).
pub open spec fn is_pseudo_mount(mount: Seq<char>) -> bool {
    ||| has_prefix(mount, "/sys"@)
    ||| has_prefix(mount, "/proc"@)
    ||| has_prefix(mount, "/dev"@)
    ||| has_prefix(mount, "/run"@)
    ||| has_prefix(mount, "/snap"@)
}

/// Whether the disk report leaves out the filesystem mounted at `mount`.
pub fn skips_mount_point(mount: &str) -> (b: bool)
    ensures
        b == is_pseudo_mount(mount@),
{
    let m = chars_of(mount);
    starts_with(&m, "/sys") || starts_with(&m, "/proc") || starts_with(&m, "/dev")
        || starts_with(&m, "/run") || starts_with(&m, "/snap")
}

/// Whether the network report leaves out the interface `name`: only the
/// loopback interface `lo` is left out.
pub fn skips_interface(name: &str) -> (b: bool)
    ensures
        b == (name@ == "lo"@),
{
    let n = chars_of(name);
    crate::text::same_chars(&n, "lo")
}

/// Process `a` ranks before process `b`: a higher key, or the same key and an
/// earlier position (the order a stable sort by descending key gives).
pub open spec fn ranks_before(keys: Seq<u64>, a: int, b: int) -> bool {
    keys[a] > keys[b] || (keys[a] == keys[b] && a < b)
}

/// `order` lists positions of `keys` in ranking order.
pub open spec fn in_rank_order(keys: Seq<u64>, order: Seq<usize>) -> bool {
    &&& forall|k: int| 0 <= k < order.len() ==> #[trigger] order[k] < keys.len()
    &&& forall|k: int, l: int|
        0 <= k < l < order.len() ==> ranks_before(keys, #[trigger] order[k] as int, #[trigger] order[l] as int)
}

/// `top` is a ranking prefix of `keys`: positions in ranking order, and every
/// position left out ranks after every position kept.
pub open spec fn is_top_ranking(keys: Seq<u64>, top: Seq<usize>) -> bool {
    &&& in_rank_order(keys, top)
    &&& forall|x: usize, k: int|
        x < keys.len() && !top.contains(x) && 0 <= k < top.len() ==> #[trigger] ranks_before(
            keys,
            top[k] as int,
            x as int,
        )
}

/// The positions of the top `top_n` items by descending key (ties keep their
/// order), best first: `keys[i]` stands for the CPU usage of process `i`.
/// The result holds `min(top_n, keys.len())` positions in ranking order, and
/// every position left out ranks after every one kept.
pub fn top_ranked(keys: &Vec<u64>, top_n: usize) -> (top: Vec<usize>)
    ensures
        top@.len() == if top_n < keys@.len() { top_n as int } else { keys@.len() as int },
        is_top_ranking(keys@, top@),
{
    let n = keys.len();
    let mut order: Vec<usize> = Vec::new();
    let mut i: usize = 0;
    while i < n
        invariant
            n == keys@.len(),
            i <= n,
            order@.len() == i,
            forall|k: int| 0 <= k < order@.len() ==> #[trigger] order@[k] < i,
            in_rank_order(keys@, order@),
            forall|j: usize| j < i ==> #[trigger] order@.contains(j),
        decreases n - i,
    {
        let key = keys[i];
        let mut p: usize = 0;
        while p < order.len() && keys[order[p]] >= key
            invariant
                n == keys@.len(),
                i < n,
                key == keys@[i as int],
                p <= order@.len(),
                forall|k: int| 0 <= k < order@.len() ==> #[trigger] order@[k] < i,
                forall|q: int| 0 <= q < p ==> keys@[#[trigger] order@[q] as int] >= key,
            decreases order@.len() - p,
        {
            p = p + 1;
        }
        let ghost before = order@;
        proof {
            if p < before.len() {
                assert(keys@[before[p as int] as int] < key);
                assert forall|q: int| p <= q < before.len() implies keys@[#[trigger] before[q] as int] < key by {
                    if q > p {
                        assert(ranks_before(keys@, before[p as int] as int, before[q] as int));
                    }
                }
            }
        }
        order.insert(p, i);
        proof {
            let after = order@;
            assert(after == before.insert(p as int, i));
            assert forall|k: int, l: int| 0 <= k < l < after.len() implies ranks_before(
                keys@,
                #[trigger] after[k] as int,
                #[trigger] after[l] as int,
            ) by {
                if l < p {
                    assert(after[k] == before[k] && after[l] == before[l]);
                } else if l == p {
                    assert(after[k] == before[k]);
                } else if k < p {
                    assert(after[k] == before[k] && after[l] == before[l - 1]);
                } else if k == p {
                    assert(after[l] == before[l - 1]);
                } else {
                    assert(after[k] == before[k - 1] && after[l] == before[l - 1]);
                }
            }
            assert forall|j: usize| j < i + 1 implies #[trigger] after.contains(j) by {
                if j == i {
                    assert(after[p as int] == i);
                } else {
                    assert(before.contains(j));
                    let k = choose|k: int| 0 <= k < before.len() && before[k] == j;
                    if k < p {
                        assert(after[k] == j);
                    } else {
                        assert(after[k + 1] == j);
                    }
                }
            }
            assert forall|k: int| 0 <= k < after.len() implies #[trigger] after[k] < i + 1 by {
                if k < p {
                    assert(after[k] == before[k]);
                } else if k > p {
                    assert(after[k] == before[k - 1]);
                }
            }
        }
        i = i + 1;
    }
    let ghost full = order@;
    let m: usize = if top_n < n { top_n } else { n };
    order.truncate(m);
    proof {
        assert(order@ == full.subrange(0, m as int));
        assert forall|x: usize, k: int|
            x < keys@.len() && !order@.contains(x) && 0 <= k < order@.len()
                implies #[trigger] ranks_before(keys@, order@[k] as int, x as int) by {
            assert(full.contains(x));
            let q = choose|q: int| 0 <= q < full.len() && full[q] == x;
            if q < m {
                assert(order@[q] == x);
            } else {
                assert(order@[k] == full[k]);
            }
        }
    }
    order
}


proof fn lemma_top_rankings_agree_at(keys: Seq<u64>, short: Seq<usize>, long: Seq<usize>, k: int)
    requires
        is_top_ranking(keys, short),
        is_top_ranking(keys, long),
        short.len() <= long.len(),
        0 <= k < short.len(),
        forall|j: int| 0 <= j < k ==> short[j] == long[j],
    ensures
        short[k] == long[k],
{
    let a = short[k];
    let b = long[k];
    if a != b {
        if ranks_before(keys, a as int, b as int) {
            if long.contains(a) {
                let j = choose|j: int| 0 <= j < long.len() && long[j] == a;
                if j < k {
                    assert(short[j] == a);
                    assert(ranks_before(keys, short[j] as int, short[k] as int));
                } else {
                    assert(ranks_before(keys, long[k] as int, long[j] as int));
                }
            } else {
                assert(ranks_before(keys, long[k] as int, a as int));
            }
        } else {
            assert(ranks_before(keys, b as int, a as int));
            if short.contains(b) {
                let j = choose|j: int| 0 <= j < short.len() && short[j] == b;
                if j < k {
                    assert(long[j] == b);
                    assert(ranks_before(keys, long[j] as int, long[k] as int));
                } else {
                    assert(ranks_before(keys, short[k] as int, short[j] as int));
                }
            } else {
                assert(ranks_before(keys, short[k] as int, b as int));
            }
        }
    }
}

proof fn lemma_top_rankings_agree_below(keys: Seq<u64>, short: Seq<usize>, long: Seq<usize>, k: int)
    requires
        is_top_ranking(keys, short),
        is_top_ranking(keys, long),
        short.len() <= long.len(),
        0 <= k <= short.len(),
    ensures
        forall|j: int| 0 <= j < k ==> short[j] == long[j],
    decreases k,
{
    if k > 0 {
        lemma_top_rankings_agree_below(keys, short, long, k - 1);
        lemma_top_rankings_agree_at(keys, short, long, k - 1);
    }
}

/// A ranking prefix is determined by its length: asking for fewer top
/// processes gives the first ones of asking for more (and asking for the
/// same number gives the same positions).
pub proof fn lemma_top_rankings_are_prefixes(keys: Seq<u64>, short: Seq<usize>, long: Seq<usize>)
    requires
        is_top_ranking(keys, short),
        is_top_ranking(keys, long),
        short.len() <= long.len(),
    ensures
        short == long.take(short.len() as int),
{
    lemma_top_rankings_agree_below(keys, short, long, short.len() as int);
    assert(short =~= long.take(short.len() as int));
}


/// A mount point is left out exactly when it begins with `/sys`, `/proc`,
/// `/dev`, `/run` or `/snap`; every other mount point (`/`, `/srv`, `/home`,
/// `/mnt/dev`, ...) is reported.
pub proof fn lemma_skipped_mounts(m: Seq<char>)
    ensures
        is_pseudo_mount(m) <==> (has_prefix(m, "/sys"@) || has_prefix(m, "/proc"@) || has_prefix(
            m,
            "/dev"@,
        ) || has_prefix(m, "/run"@) || has_prefix(m, "/snap"@)),
{
}

/// Leaving a mount point out carries over to every path beneath it:
/// extending a skipped mount point keeps it skipped.
pub proof fn lemma_skipped_mounts_extend(m: Seq<char>, rest: Seq<char>)
    requires
        is_pseudo_mount(m),
    ensures
        is_pseudo_mount(m + rest),
{
    let e = m + rest;
    assert forall|p: Seq<char>| has_prefix(m, p) implies has_prefix(e, p) by {
        assert(e.subrange(0, p.len() as int) =~= m.subrange(0, p.len() as int));
    }
}

/// The first position of a ranking holds a highest key, and keys never rise
/// along the ranking.
pub proof fn lemma_ranking_descends(keys: Seq<u64>, top: Seq<usize>)
    requires
        is_top_ranking(keys, top),
    ensures
        forall|k: int, l: int| 0 <= k < l < top.len() ==> keys[#[trigger] top[k] as int] >= keys[
            #[trigger] top[l] as int],
        top.len() > 0 ==> forall|x: usize| x < keys.len() ==> keys[top[0] as int] >= #[trigger] keys[x as int],
{
    if top.len() > 0 {
        assert forall|x: usize| x < keys.len() implies keys[top[0] as int] >= #[trigger] keys[x as int] by {
            if top.contains(x) {
                let k = choose|k: int| 0 <= k < top.len() && top[k] == x;
                if k > 0 {
                    assert(ranks_before(keys, top[0] as int, top[k] as int));
                }
            } else {
                assert(ranks_before(keys, top[0] as int, x as int));
            }
        }
    }
    assert forall|k: int, l: int| 0 <= k < l < top.len() implies keys[#[trigger] top[k] as int]
        >= keys[#[trigger] top[l] as int] by {
        assert(ranks_before(keys, top[k] as int, top[l] as int));
    }
}

} // verus!
