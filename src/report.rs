//! Text reports of a host identity and of a resource snapshot, one fact per line.

use vstd::prelude::*;
use crate::decimal::{
    dec,
    dec_hundredths,
    dec_tenths,
    is_digit,
    lemma_dec_starts_with_digit,
    push_dec,
    push_hundredths,
    push_tenths,
};
use crate::telemetry::{
    snapshot_of,
    HostIdentity,
    HostIdentityView,
    LoadAverage,
    ResourceSnapshot,
    ResourceSnapshotView,
};

verus! {

/// Lines joined into text, each ended by a newline.
pub open spec fn text_of(lines: Seq<Seq<char>>) -> Seq<char>
    decreases lines.len(),
{
    if lines.len() == 0 {
        Seq::empty()
    } else {
        text_of(lines.drop_last()) + lines.last() + seq!['\n']
    }
}

pub open spec fn starts_with(line: Seq<char>, prefix: Seq<char>) -> bool {
    prefix.len() <= line.len() && line.subrange(0, prefix.len() as int) == prefix
}

pub open spec fn hostname_line(h: Seq<char>) -> Seq<char> {
    "Hostname: "@ + h
}

pub open spec fn hostname_lines(hostname: Option<Seq<char>>) -> Seq<Seq<char>> {
    match hostname {
        Some(h) => seq![hostname_line(h)],
        None => Seq::empty(),
    }
}

/// The identity report: OS, architecture, family, hostname when known, core count.
pub open spec fn identity_lines(id: HostIdentityView, cpu_count: nat) -> Seq<Seq<char>> {
    seq!["OS: "@ + id.os_name, "Arch: "@ + id.arch, "Family: "@ + id.os_family]
        + hostname_lines(id.hostname) + seq!["CPU Count: "@ + dec(cpu_count)]
}

pub open spec fn identity_text(id: HostIdentityView, cpu_count: nat) -> Seq<char> {
    text_of(identity_lines(id, cpu_count))
}

pub open spec fn load_line(l: LoadAverage) -> Seq<char> {
    "Load Average: "@ + dec_hundredths(l.one as nat) + " "@ + dec_hundredths(l.five as nat) + " "@
        + dec_hundredths(l.fifteen as nat)
}

pub open spec fn load_lines(load: Option<LoadAverage>) -> Seq<Seq<char>> {
    match load {
        Some(l) => seq![load_line(l)],
        None => Seq::empty(),
    }
}

/// Kibibytes shown as whole mebibytes, truncated.
pub open spec fn mb_line(label: Seq<char>, kb: nat) -> Seq<char> {
    label + dec(kb / 1024) + " MB"@
}

pub open spec fn cpu_line(index: nat, usage_tenths: nat) -> Seq<char> {
    "CPU "@ + dec(index) + ": "@ + dec_tenths(usage_tenths) + "%"@
}

pub open spec fn cpu_lines(usage: Seq<u32>) -> Seq<Seq<char>> {
    Seq::new(usage.len(), |i: int| cpu_line(i as nat, usage[i] as nat))
}

/// Everything of the status report that comes before the per-core lines.
pub open spec fn status_head(s: ResourceSnapshotView) -> Seq<Seq<char>> {
    load_lines(s.load_average) + seq![
        mb_line("Total: "@, s.total_memory_kb),
        mb_line("Free: "@, s.free_memory_kb),
        mb_line("Used: "@, s.used_memory_kb),
        "CPU Cores: "@ + dec(s.cpu_count()),
    ]
}

/// The status report: load average when the platform has one, memory, core count, and one
/// line per core.
pub open spec fn status_lines(s: ResourceSnapshotView) -> Seq<Seq<char>> {
    status_head(s) + cpu_lines(s.cpu_usage)
}

pub open spec fn status_text(s: ResourceSnapshotView) -> Seq<char> {
    text_of(status_lines(s))
}

/// A per-core line: "CPU " followed by a digit.
pub open spec fn is_core_line(line: Seq<char>) -> bool {
    starts_with(line, "CPU "@) && line.len() > 4 && is_digit(line[4])
}

proof fn lemma_text_push(lines: Seq<Seq<char>>, l: Seq<char>)
    ensures
        text_of(lines.push(l)) == text_of(lines) + l + seq!['\n'],
{
    assert(lines.push(l).drop_last() =~= lines);
}

/// Appends `line` and a newline, keeping `out` the text of `lines` extended by it.
fn end_line(out: &mut String, Ghost(lines): Ghost<Seq<Seq<char>>>, Ghost(line): Ghost<Seq<char>>)
    requires
        old(out)@ == text_of(lines) + line,
    ensures
        final(out)@ == text_of(lines.push(line)),
{
    out.append("\n");
    proof {
        reveal_strlit("\n");
        lemma_text_push(lines, line);
    }
    assert(final(out)@ =~= text_of(lines.push(line)));
}

/// Appends `label` and `s` as one line.
fn push_labeled_line(
    out: &mut String,
    label: &str,
    s: &str,
    Ghost(lines): Ghost<Seq<Seq<char>>>,
)
    requires
        old(out)@ == text_of(lines),
    ensures
        final(out)@ == text_of(lines.push(label@ + s@)),
{
    out.append(label);
    out.append(s);
    assert(out@ =~= text_of(lines) + (label@ + s@));
    end_line(out, Ghost(lines), Ghost(label@ + s@));
}

/// The identity report, one line per fact; the hostname line only when a hostname is known.
pub fn format_identity(identity: &HostIdentity, cpu_count: usize) -> (r: String)
    ensures
        r@ == identity_text(identity@, cpu_count as nat),
{
    let ghost id = identity@;
    let mut out = String::new();
    let ghost lines: Seq<Seq<char>> = Seq::empty();
    assert(out@ =~= text_of(lines));
    push_labeled_line(&mut out, "OS: ", identity.os_name(), Ghost(lines));
    proof {
        lines = lines.push("OS: "@ + id.os_name);
    }
    push_labeled_line(&mut out, "Arch: ", identity.arch(), Ghost(lines));
    proof {
        lines = lines.push("Arch: "@ + id.arch);
    }
    push_labeled_line(&mut out, "Family: ", identity.os_family(), Ghost(lines));
    proof {
        lines = lines.push("Family: "@ + id.os_family);
    }
    match identity.hostname() {
        Some(h) => {
            push_labeled_line(&mut out, "Hostname: ", h, Ghost(lines));
            proof {
                lines = lines.push(hostname_line(h@));
            }
        },
        None => {},
    }
    out.append("CPU Count: ");
    push_dec(&mut out, cpu_count as u64);
    assert(out@ =~= text_of(lines) + ("CPU Count: "@ + dec(cpu_count as nat)));
    end_line(&mut out, Ghost(lines), Ghost("CPU Count: "@ + dec(cpu_count as nat)));
    proof {
        lines = lines.push("CPU Count: "@ + dec(cpu_count as nat));
        assert(lines =~= identity_lines(id, cpu_count as nat));
    }
    out
}


fn push_mb_line(out: &mut String, label: &str, kb: u64, Ghost(lines): Ghost<Seq<Seq<char>>>)
    requires
        old(out)@ == text_of(lines),
    ensures
        final(out)@ == text_of(lines.push(mb_line(label@, kb as nat))),
{
    out.append(label);
    push_dec(out, kb / 1024);
    out.append(" MB");
    assert(out@ =~= text_of(lines) + mb_line(label@, kb as nat));
    end_line(out, Ghost(lines), Ghost(mb_line(label@, kb as nat)));
}

fn push_load_line(out: &mut String, l: LoadAverage, Ghost(lines): Ghost<Seq<Seq<char>>>)
    requires
        old(out)@ == text_of(lines),
    ensures
        final(out)@ == text_of(lines.push(load_line(l))),
{
    out.append("Load Average: ");
    push_hundredths(out, l.one);
    out.append(" ");
    push_hundredths(out, l.five);
    out.append(" ");
    push_hundredths(out, l.fifteen);
    assert(out@ =~= text_of(lines) + load_line(l));
    end_line(out, Ghost(lines), Ghost(load_line(l)));
}

fn push_cpu_line(out: &mut String, index: usize, usage: u32, Ghost(lines): Ghost<Seq<Seq<char>>>)
    requires
        old(out)@ == text_of(lines),
    ensures
        final(out)@ == text_of(lines.push(cpu_line(index as nat, usage as nat))),
{
    out.append("CPU ");
    push_dec(out, index as u64);
    out.append(": ");
    push_tenths(out, usage as u64);
    out.append("%");
    assert(out@ =~= text_of(lines) + cpu_line(index as nat, usage as nat));
    end_line(out, Ghost(lines), Ghost(cpu_line(index as nat, usage as nat)));
}

/// The status report: the load average line only where the platform has one, memory in
/// whole mebibytes (truncated), the core count, then "CPU <i>: <usage>%" for each core in
/// order.
pub fn format_status(snapshot: &ResourceSnapshot) -> (r: String)
    ensures
        r@ == status_text(snapshot@),
{
    let ghost s = snapshot@;
    let mut out = String::new();
    let ghost lines: Seq<Seq<char>> = Seq::empty();
    assert(out@ =~= text_of(lines));
    match snapshot.load_average() {
        Some(l) => {
            push_load_line(&mut out, l, Ghost(lines));
            proof {
                lines = lines.push(load_line(l));
            }
        },
        None => {},
    }
    push_mb_line(&mut out, "Total: ", snapshot.total_memory_kb(), Ghost(lines));
    proof {
        lines = lines.push(mb_line("Total: "@, s.total_memory_kb));
    }
    push_mb_line(&mut out, "Free: ", snapshot.free_memory_kb(), Ghost(lines));
    proof {
        lines = lines.push(mb_line("Free: "@, s.free_memory_kb));
    }
    push_mb_line(&mut out, "Used: ", snapshot.used_memory_kb(), Ghost(lines));
    proof {
        lines = lines.push(mb_line("Used: "@, s.used_memory_kb));
    }
    let n = snapshot.cpu_count();
    out.append("CPU Cores: ");
    push_dec(&mut out, n as u64);
    assert(out@ =~= text_of(lines) + ("CPU Cores: "@ + dec(n as nat)));
    end_line(&mut out, Ghost(lines), Ghost("CPU Cores: "@ + dec(n as nat)));
    proof {
        lines = lines.push("CPU Cores: "@ + dec(n as nat));
        assert(lines =~= status_head(s));
    }
    let usage = snapshot.cpu_usage();
    let mut i: usize = 0;
    while i < n
        invariant
            n == usage@.len(),
            usage@ == s.cpu_usage,
            i <= n,
            lines == status_head(s) + cpu_lines(s.cpu_usage).take(i as int),
            out@ == text_of(lines),
        decreases n - i,
    {
        push_cpu_line(&mut out, i, usage[i], Ghost(lines));
        proof {
            lines = lines.push(cpu_line(i as nat, usage@[i as int] as nat));
            assert(lines =~= status_head(s) + cpu_lines(s.cpu_usage).take(i + 1));
        }
        i = i + 1;
    }
    proof {
        assert(cpu_lines(s.cpu_usage).take(n as int) =~= cpu_lines(s.cpu_usage));
        assert(lines =~= status_lines(s));
    }
    out
}

/// Identical snapshots give identical status text.
pub proof fn lemma_status_deterministic(a: ResourceSnapshotView, b: ResourceSnapshotView)
    requires
        a == b,
    ensures
        status_text(a) == status_text(b),
{
}

/// The identity report holds a hostname line exactly when a hostname is known, and that line
/// carries the hostname itself, which is never empty.
pub proof fn lemma_hostname_line(id: HostIdentityView, cpu_count: nat)
    requires
        id.wf(),
    ensures
        (exists|i: int|
            0 <= i < identity_lines(id, cpu_count).len() && starts_with(
                #[trigger] identity_lines(id, cpu_count)[i],
                "Hostname: "@,
            )) <==> id.hostname is Some,
        forall|i: int|
            0 <= i < identity_lines(id, cpu_count).len() && starts_with(
                #[trigger] identity_lines(id, cpu_count)[i],
                "Hostname: "@,
            ) ==> (id.hostname matches Some(h) && h.len() > 0 && identity_lines(id, cpu_count)[i]
                == hostname_line(h)),
{
    reveal_strlit("Hostname: ");
    reveal_strlit("OS: ");
    reveal_strlit("Arch: ");
    reveal_strlit("Family: ");
    reveal_strlit("CPU Count: ");
    let lines = identity_lines(id, cpu_count);
    assert forall|i: int| 0 <= i < lines.len() && starts_with(#[trigger] lines[i], "Hostname: "@)
        implies (id.hostname matches Some(h) && h.len() > 0 && lines[i] == hostname_line(h)) by {
        assert(lines[i].subrange(0, 10)[0] == lines[i][0]);
        assert(lines[i][0] == 'H');
        if id.hostname is None {
            assert(i < 4);
        } else {
            assert(i == 3);
        }
    }
    if let Some(h) = id.hostname {
        assert(lines[3] == hostname_line(h));
        assert(lines[3].subrange(0, 10) =~= "Hostname: "@);
        assert(starts_with(lines[3], "Hostname: "@));
    }
}

proof fn lemma_head_lines(s: ResourceSnapshotView)
    ensures
        forall|i: int|
            0 <= i < status_head(s).len() ==> !is_core_line(#[trigger] status_head(s)[i]),
        forall|i: int|
            0 <= i < status_head(s).len() ==> (starts_with(
                #[trigger] status_head(s)[i],
                "Load Average: "@,
            ) <==> (s.load_average is Some && i == 0)),
{
    reveal_strlit("CPU ");
    reveal_strlit("Load Average: ");
    reveal_strlit("Total: ");
    reveal_strlit("Free: ");
    reveal_strlit("Used: ");
    reveal_strlit("CPU Cores: ");
    let head = status_head(s);
    assert forall|i: int| 0 <= i < head.len() implies !is_core_line(#[trigger] head[i]) && (
    starts_with(head[i], "Load Average: "@) <==> (s.load_average is Some && i == 0)) by {
        if is_core_line(head[i]) {
            assert(head[i][0] == 'C');
            assert(head[i][4] == 'C');
        }
        if starts_with(head[i], "Load Average: "@) {
            assert(head[i].subrange(0, 14)[0] == head[i][0]);
            assert(head[i][0] == 'L');
        }
        if s.load_average is Some && i == 0 {
            let l = s.load_average->0;
            assert(head[0] == load_line(l));
            assert(head[0].subrange(0, 14) =~= "Load Average: "@);
        }
    }
}

proof fn lemma_cpu_line_shape(index: nat, usage: nat)
    ensures
        is_core_line(cpu_line(index, usage)),
        !starts_with(cpu_line(index, usage), "Load Average: "@),
{
    reveal_strlit("CPU ");
    reveal_strlit("Load Average: ");
    reveal_strlit(": ");
    lemma_dec_starts_with_digit(index);
    let l = cpu_line(index, usage);
    assert(l.subrange(0, 4) =~= "CPU "@);
    assert(l[4] == dec(index)[0]);
    if starts_with(l, "Load Average: "@) {
        assert(l[0] == 'L');
    }
}

/// The per-core lines of a status report are contiguous, one for each core, in core order:
/// the line of core `i` is "CPU <i>: <usage of core i>%", and no other line is a per-core
/// line.
pub proof fn lemma_core_lines(s: ResourceSnapshotView)
    requires
        s.wf(),
    ensures
        status_lines(s).len() == status_head(s).len() + s.cpu_count(),
        forall|i: int|
            0 <= i < status_head(s).len() ==> !is_core_line(#[trigger] status_lines(s)[i]),
        forall|i: int|
            0 <= i < s.cpu_count() ==> {
                let line = #[trigger] status_lines(s)[status_head(s).len() + i];
                &&& line == cpu_line(i as nat, s.cpu_usage[i] as nat)
                &&& is_core_line(line)
            },
{
    lemma_head_lines(s);
    let head = status_head(s);
    let lines = status_lines(s);
    assert forall|i: int| 0 <= i < head.len() implies !is_core_line(#[trigger] lines[i]) by {
        assert(lines[i] == head[i]);
    }
    assert forall|i: int| 0 <= i < s.cpu_count() implies {
        let line = #[trigger] lines[head.len() + i];
        &&& line == cpu_line(i as nat, s.cpu_usage[i] as nat)
        &&& is_core_line(line)
    } by {
        lemma_cpu_line_shape(i as nat, s.cpu_usage[i] as nat);
    }
}

/// A status report has a load-average line exactly when the snapshot has a load average; a
/// platform without one gets no such line.
pub proof fn lemma_load_line(s: ResourceSnapshotView)
    ensures
        (exists|i: int|
            0 <= i < status_lines(s).len() && starts_with(
                #[trigger] status_lines(s)[i],
                "Load Average: "@,
            )) <==> s.load_average is Some,
        s.load_average matches Some(l) ==> status_lines(s)[0] == load_line(l),
{
    lemma_head_lines(s);
    let head = status_head(s);
    let lines = status_lines(s);
    assert forall|i: int| 0 <= i < lines.len() && #[trigger] starts_with(lines[i], "Load Average: "@)
        implies s.load_average is Some by {
        if i < head.len() {
            assert(lines[i] == head[i]);
        } else {
            lemma_cpu_line_shape((i - head.len()) as nat, s.cpu_usage[i - head.len()] as nat);
        }
    }
    if s.load_average is Some {
        assert(lines[0] == head[0]);
        assert(starts_with(lines[0], "Load Average: "@));
    }
}

/// Readings from a platform without a load average give a snapshot without one, and its
/// status report has no load-average line.
pub proof fn lemma_no_load_average_platform(total_bytes: nat, free_bytes: nat, cpu_usage: Seq<u32>)
    ensures
        snapshot_of(total_bytes, free_bytes, cpu_usage, None).load_average is None,
        forall|i: int|
            0 <= i < status_lines(snapshot_of(total_bytes, free_bytes, cpu_usage, None)).len()
                ==> !starts_with(
                #[trigger] status_lines(snapshot_of(total_bytes, free_bytes, cpu_usage, None))[i],
                "Load Average: "@,
            ),
{
    lemma_load_line(snapshot_of(total_bytes, free_bytes, cpu_usage, None));
}

} // verus!
