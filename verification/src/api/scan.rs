//! What the recorded history shows of the capabilities in use: the hosts
//! and paths it names, the tools it mentions, and samples of its commands.

use vstd::prelude::*;
use crate::ambient::{regex_all, regex_find_all, regex_group, regex_group_all};
use crate::json::{Json, JsonView};
use crate::text::{
    ascii_lowercase, blank, chars_of, contains_str, contains_text, is_blank_str, opt_view,
    prefix, prefix_of, text_of, to_ascii_lowercase, views,
};
use super::codex::{
    add_count, capped_sum, counts_view, merge_counts, merged, top_n, top_of, with_count,
    CodexCapabilitiesResp, CountedItem,
};
use super::extract::{extract_strings_limited, gathered};
use super::paths::{split_url, url_parts};
use super::redact::{redact, redacted};
use super::requests::CapScanFile;

verus! {

/// The pattern of an address in a text.
pub const URL_PATTERN: &'static str = "https?://[^\\s\"'<>]+";

/// The pattern of a path of an interface in a text.
pub const PATH_HINT_PATTERN: &'static str =
    "(?P<path>/(?:v\\d+|api|users|meta|nstar|progress\\.sse|swagger-ui|api-docs)[^\\s\"']*)";

/// What the scan of one file has found.
#[derive(Debug)]
pub struct FileScanAccum {
    pub events_parsed: u64,
    pub strings_extracted: u64,
    pub host_counts: Vec<CountedItem>,
    pub path_counts: Vec<CountedItem>,
    pub tool_counts: Vec<CountedItem>,
    pub samples: Vec<String>,
    pub tailed_lines: usize,
    pub size_bytes: u64,
}

/// What a scan holds.
pub struct ScanView {
    pub events_parsed: u64,
    pub strings_extracted: u64,
    pub host_counts: Seq<(Seq<char>, u64)>,
    pub path_counts: Seq<(Seq<char>, u64)>,
    pub tool_counts: Seq<(Seq<char>, u64)>,
    pub samples: Seq<Seq<char>>,
    pub tailed_lines: usize,
    pub size_bytes: u64,
}

impl View for FileScanAccum {
    type V = ScanView;

    open spec fn view(&self) -> ScanView {
        ScanView {
            events_parsed: self.events_parsed,
            strings_extracted: self.strings_extracted,
            host_counts: counts_view(self.host_counts@),
            path_counts: counts_view(self.path_counts@),
            tool_counts: counts_view(self.tool_counts@),
            samples: views(self.samples@),
            tailed_lines: self.tailed_lines,
            size_bytes: self.size_bytes,
        }
    }
}

/// The addresses that a text names.
pub open spec fn addresses(s: Seq<char>) -> Seq<Seq<char>> {
    match regex_all(URL_PATTERN@, s) {
        Some(found) => found,
        None => Seq::<Seq<char>>::empty(),
    }
}

/// The paths of an interface that a text names, one for each place where
/// it names one.
pub open spec fn path_hints(s: Seq<char>) -> Seq<Option<Seq<char>>> {
    match regex_group(PATH_HINT_PATTERN@, s, "path"@) {
        Some(found) => found,
        None => Seq::<Option<Seq<char>>>::empty(),
    }
}

/// The counts of hosts after the first `n` addresses were counted: each
/// address that has a host counts once for it.
pub open spec fn hosts_counted(counts: Seq<(Seq<char>, u64)>, urls: Seq<Seq<char>>, n: int) -> Seq<
    (Seq<char>, u64),
>
    decreases n,
{
    if n <= 0 {
        counts
    } else {
        match url_parts(urls[n - 1]) {
            Some(parts) => with_count(hosts_counted(counts, urls, n - 1), parts.0, 1),
            None => hosts_counted(counts, urls, n - 1),
        }
    }
}

/// The counts of paths after the first `n` addresses were counted.
pub open spec fn url_paths_counted(counts: Seq<(Seq<char>, u64)>, urls: Seq<Seq<char>>, n: int) -> Seq<
    (Seq<char>, u64),
>
    decreases n,
{
    if n <= 0 {
        counts
    } else {
        match url_parts(urls[n - 1]) {
            Some(parts) => with_count(url_paths_counted(counts, urls, n - 1), parts.1, 1),
            None => url_paths_counted(counts, urls, n - 1),
        }
    }
}

/// The counts of paths after the first `n` hints were counted.
pub open spec fn hints_counted(
    counts: Seq<(Seq<char>, u64)>,
    hints: Seq<Option<Seq<char>>>,
    n: int,
) -> Seq<(Seq<char>, u64)>
    decreases n,
{
    if n <= 0 {
        counts
    } else {
        match hints[n - 1] {
            Some(p) => with_count(hints_counted(counts, hints, n - 1), p, 1),
            None => hints_counted(counts, hints, n - 1),
        }
    }
}

/// The counts of tools after the first `n` tools were looked for in the
/// lowercased text `low`: each that the text mentions counts once.
pub open spec fn tools_counted(
    counts: Seq<(Seq<char>, u64)>,
    low: Seq<char>,
    tools: Seq<Seq<char>>,
    n: int,
) -> Seq<(Seq<char>, u64)>
    decreases n,
{
    if n <= 0 {
        counts
    } else if contains_text(low, tools[n - 1]) {
        with_count(tools_counted(counts, low, tools, n - 1), tools[n - 1], 1)
    } else {
        tools_counted(counts, low, tools, n - 1)
    }
}

/// A text is worth keeping as a sample: it names an address or mentions
/// one of the commands `curl`, `cargo`, `git` and `ast-grep`.
pub open spec fn sample_worthy(s: Seq<char>) -> bool {
    let low = ascii_lowercase(s);
    contains_text(s, "http://"@) || contains_text(s, "https://"@) || contains_text(
        low,
        "curl "@,
    ) || contains_text(low, "cargo "@) || contains_text(low, "git "@) || contains_text(
        low,
        "ast-grep"@,
    )
}

/// The scan after one text was read: it counts as one string; the hosts
/// and paths of its addresses, the paths it hints at and the tools it
/// mentions are counted; and its first four hundred characters are kept as
/// a sample where it is worth one and fewer than thirty are kept.
pub open spec fn after_text(acc: ScanView, s: Seq<char>, tools: Seq<Seq<char>>) -> ScanView {
    let urls = addresses(s);
    let hints = path_hints(s);
    ScanView {
        strings_extracted: capped_sum(acc.strings_extracted, 1),
        host_counts: hosts_counted(acc.host_counts, urls, urls.len() as int),
        path_counts: hints_counted(
            url_paths_counted(acc.path_counts, urls, urls.len() as int),
            hints,
            hints.len() as int,
        ),
        tool_counts: tools_counted(
            acc.tool_counts,
            ascii_lowercase(s),
            tools,
            tools.len() as int,
        ),
        samples: if acc.samples.len() < 30 && sample_worthy(s) {
            acc.samples.push(prefix(s, 400))
        } else {
            acc.samples
        },
        ..acc
    }
}

/// The scan after the first `n` texts were read; blank ones are passed
/// over.
pub open spec fn after_texts(acc: ScanView, texts: Seq<Seq<char>>, tools: Seq<Seq<char>>, n: int) -> ScanView
    decreases n,
{
    if n <= 0 {
        acc
    } else if blank(texts[n - 1]) {
        after_texts(acc, texts, tools, n - 1)
    } else {
        after_text(after_texts(acc, texts, tools, n - 1), texts[n - 1], tools)
    }
}

/// The scan after one line was read. A line that stands for a structured
/// value counts as one event, and the texts that the value holds are read:
/// two hundred at most, from its first six levels. Any other line is read
/// as one text, after redaction.
pub open spec fn after_line(
    acc: ScanView,
    line: Seq<char>,
    parsed: Option<JsonView>,
    tools: Seq<Seq<char>>,
) -> ScanView {
    match parsed {
        Some(v) => {
            let texts = gathered(v, 6, 200);
            after_texts(
                ScanView { events_parsed: capped_sum(acc.events_parsed, 1), ..acc },
                texts,
                tools,
                texts.len() as int,
            )
        },
        None => after_texts(acc, seq![redacted(line)], tools, 1),
    }
}

/// The names of tools.
pub open spec fn tool_names(tools: Seq<&'static str>) -> Seq<Seq<char>> {
    Seq::new(tools.len(), |i: int| tools[i]@)
}

/// Reads one text into the scan.
fn scan_text(acc: &mut FileScanAccum, s: &str, tools: &Vec<&'static str>)
    ensures
        final(acc)@ == after_text(old(acc)@, s@, tool_names(tools@)),
{
    let ghost a0 = acc@;
    let ghost names = tool_names(tools@);
    acc.strings_extracted = acc.strings_extracted.saturating_add(1);
    let urls: Vec<String> = match regex_find_all(URL_PATTERN, s) {
        Some(found) => found,
        None => Vec::new(),
    };
    let ghost all_urls = views(urls@);
    assert(all_urls =~= addresses(s@));
    let mut i: usize = 0;
    while i < urls.len()
        invariant
            i <= urls.len(),
            all_urls == views(urls@),
            counts_view(acc.host_counts@) == hosts_counted(a0.host_counts, all_urls, i as int),
            counts_view(acc.path_counts@) == url_paths_counted(
                a0.path_counts,
                all_urls,
                i as int,
            ),
            acc.events_parsed == a0.events_parsed,
            acc.strings_extracted == capped_sum(a0.strings_extracted, 1),
            counts_view(acc.tool_counts@) == a0.tool_counts,
            views(acc.samples@) == a0.samples,
            acc.tailed_lines == a0.tailed_lines,
            acc.size_bytes == a0.size_bytes,
        decreases urls.len() - i,
    {
        assert(all_urls[i as int] == urls@[i as int]@);
        if let Some((host, path)) = split_url(urls[i].as_str()) {
            add_count(&mut acc.host_counts, host.as_str(), 1);
            add_count(&mut acc.path_counts, path.as_str(), 1);
        }
        i += 1;
    }
    let hints: Vec<Option<String>> = match regex_group_all(PATH_HINT_PATTERN, s, "path") {
        Some(found) => found,
        None => Vec::new(),
    };
    let ghost all_hints = crate::ambient::opt_views(hints@);
    assert(all_hints =~= path_hints(s@));
    let ghost paths0 = counts_view(acc.path_counts@);
    let mut k: usize = 0;
    while k < hints.len()
        invariant
            k <= hints.len(),
            all_hints == crate::ambient::opt_views(hints@),
            counts_view(acc.path_counts@) == hints_counted(paths0, all_hints, k as int),
            counts_view(acc.host_counts@) == hosts_counted(
                a0.host_counts,
                all_urls,
                all_urls.len() as int,
            ),
            acc.events_parsed == a0.events_parsed,
            acc.strings_extracted == capped_sum(a0.strings_extracted, 1),
            counts_view(acc.tool_counts@) == a0.tool_counts,
            views(acc.samples@) == a0.samples,
            acc.tailed_lines == a0.tailed_lines,
            acc.size_bytes == a0.size_bytes,
        decreases hints.len() - k,
    {
        assert(all_hints[k as int] == opt_view(hints@[k as int]));
        if let Some(p) = &hints[k] {
            add_count(&mut acc.path_counts, p.as_str(), 1);
        }
        k += 1;
    }
    let text = chars_of(s);
    let low = to_ascii_lowercase(&text);
    let mut t: usize = 0;
    while t < tools.len()
        invariant
            t <= tools.len(),
            names == tool_names(tools@),
            low@ == ascii_lowercase(s@),
            counts_view(acc.tool_counts@) == tools_counted(a0.tool_counts, low@, names, t as int),
            counts_view(acc.path_counts@) == hints_counted(
                paths0,
                all_hints,
                all_hints.len() as int,
            ),
            counts_view(acc.host_counts@) == hosts_counted(
                a0.host_counts,
                all_urls,
                all_urls.len() as int,
            ),
            acc.events_parsed == a0.events_parsed,
            acc.strings_extracted == capped_sum(a0.strings_extracted, 1),
            views(acc.samples@) == a0.samples,
            acc.tailed_lines == a0.tailed_lines,
            acc.size_bytes == a0.size_bytes,
        decreases tools.len() - t,
    {
        assert(names[t as int] == tools@[t as int]@);
        if contains_str(&low, tools[t]) {
            add_count(&mut acc.tool_counts, tools[t], 1);
        }
        t += 1;
    }
    if acc.samples.len() < 30 && (contains_str(&text, "http://") || contains_str(
        &text,
        "https://",
    ) || contains_str(&low, "curl ") || contains_str(&low, "cargo ") || contains_str(
        &low,
        "git ",
    ) || contains_str(&low, "ast-grep")) {
        let ghost before = views(acc.samples@);
        acc.samples.push(text_of(&prefix_of(&text, 400)));
        assert(views(acc.samples@) =~= before.push(prefix(s@, 400)));
    }
}

/// Reads texts into the scan; blank ones are passed over.
fn scan_texts(acc: &mut FileScanAccum, texts: &Vec<String>, tools: &Vec<&'static str>)
    ensures
        final(acc)@ == after_texts(
            old(acc)@,
            views(texts@),
            tool_names(tools@),
            texts@.len() as int,
        ),
{
    let ghost all = views(texts@);
    let mut i: usize = 0;
    while i < texts.len()
        invariant
            i <= texts.len(),
            all == views(texts@),
            acc@ == after_texts(old(acc)@, all, tool_names(tools@), i as int),
        decreases texts.len() - i,
    {
        assert(all[i as int] == texts@[i as int]@);
        if !is_blank_str(texts[i].as_str()) {
            scan_text(acc, texts[i].as_str(), tools);
        }
        i += 1;
    }
}

/// Reads one line into the scan, given the structured value that it stands
/// for where it stands for one.
pub fn scan_line(
    acc: &mut FileScanAccum,
    line: &str,
    parsed: Option<&Json>,
    tools: &Vec<&'static str>,
)
    ensures
        final(acc)@ == after_line(
            old(acc)@,
            line@,
            match parsed {
                Some(v) => Some(v@),
                None => None,
            },
            tool_names(tools@),
        ),
{
    let mut texts: Vec<String> = Vec::new();
    assert(views(texts@) =~= Seq::<Seq<char>>::empty());
    match parsed {
        Some(v) => {
            acc.events_parsed = acc.events_parsed.saturating_add(1);
            let mut budget: usize = 200;
            extract_strings_limited(v, &mut texts, 6, &mut budget);
            assert(views(texts@) =~= gathered(v@, 6, 200));
        },
        None => {
            texts.push(redact(line));
            assert(views(texts@) =~= seq![redacted(line@)]);
        },
    }
    scan_texts(acc, &texts, tools);
}

/// The tools that a scan looks for.
pub fn scanned_tools() -> (tools: Vec<&'static str>)
    ensures
        tool_names(tools@) == seq![
            "curl"@,
            "cargo"@,
            "git"@,
            "npm"@,
            "node"@,
            "python"@,
            "jq"@,
            "yq"@,
            "fd"@,
            "rg"@,
            "ast-grep"@,
            "docker"@,
            "gcloud"@,
        ],
{
    let mut tools: Vec<&'static str> = Vec::new();
    tools.push("curl");
    tools.push("cargo");
    tools.push("git");
    tools.push("npm");
    tools.push("node");
    tools.push("python");
    tools.push("jq");
    tools.push("yq");
    tools.push("fd");
    tools.push("rg");
    tools.push("ast-grep");
    tools.push("docker");
    tools.push("gcloud");
    assert(tool_names(tools@) =~= seq![
        "curl"@,
        "cargo"@,
        "git"@,
        "npm"@,
        "node"@,
        "python"@,
        "jq"@,
        "yq"@,
        "fd"@,
        "rg"@,
        "ast-grep"@,
        "docker"@,
        "gcloud"@,
    ]);
    tools
}

/// A scan before any line is read, of a file of `size_bytes` bytes of
/// which `tailed_lines` lines are read.
pub open spec fn fresh_scan(tailed_lines: usize, size_bytes: u64) -> ScanView {
    ScanView {
        events_parsed: 0,
        strings_extracted: 0,
        host_counts: Seq::empty(),
        path_counts: Seq::empty(),
        tool_counts: Seq::empty(),
        samples: Seq::empty(),
        tailed_lines,
        size_bytes,
    }
}

/// What the lines of a file stand for: each line with the structured
/// value that it stands for, where it stands for one.
pub open spec fn lines_view(lines: Seq<(String, Option<Json>)>) -> Seq<
    (Seq<char>, Option<JsonView>),
> {
    Seq::new(
        lines.len(),
        |i: int|
            (
                lines[i].0@,
                match lines[i].1 {
                    Some(v) => Some(v@),
                    None => None,
                },
            ),
    )
}

/// The scan after the first `n` lines were read.
pub open spec fn after_lines(
    acc: ScanView,
    lines: Seq<(Seq<char>, Option<JsonView>)>,
    tools: Seq<Seq<char>>,
    n: int,
) -> ScanView
    decreases n,
{
    if n <= 0 {
        acc
    } else {
        after_line(after_lines(acc, lines, tools, n - 1), lines[n - 1].0, lines[n - 1].1, tools)
    }
}

/// The scan of the lines at the end of a file of `size_bytes` bytes.
pub fn scan_jsonl_file(
    lines: &Vec<(String, Option<Json>)>,
    size_bytes: u64,
    tools: &Vec<&'static str>,
) -> (acc: FileScanAccum)
    ensures
        acc@ == after_lines(
            fresh_scan(lines@.len() as usize, size_bytes),
            lines_view(lines@),
            tool_names(tools@),
            lines@.len() as int,
        ),
{
    let mut acc = FileScanAccum {
        events_parsed: 0,
        strings_extracted: 0,
        host_counts: Vec::new(),
        path_counts: Vec::new(),
        tool_counts: Vec::new(),
        samples: Vec::new(),
        tailed_lines: lines.len(),
        size_bytes,
    };
    proof {
        assert(acc@.host_counts =~= Seq::<(Seq<char>, u64)>::empty());
        assert(acc@.path_counts =~= Seq::<(Seq<char>, u64)>::empty());
        assert(acc@.tool_counts =~= Seq::<(Seq<char>, u64)>::empty());
        assert(acc@.samples =~= Seq::<Seq<char>>::empty());
    }
    let ghost all = lines_view(lines@);
    let mut i: usize = 0;
    while i < lines.len()
        invariant
            i <= lines.len(),
            all == lines_view(lines@),
            acc@ == after_lines(
                fresh_scan(lines@.len() as usize, size_bytes),
                all,
                tool_names(tools@),
                i as int,
            ),
        decreases lines.len() - i,
    {
        assert(all[i as int].0 == lines@[i as int].0@);
        scan_line(&mut acc, lines[i].0.as_str(), lines[i].1.as_ref(), tools);
        i += 1;
    }
    acc
}

/// What the scans of several files have found together.
#[derive(Debug)]
pub struct ScanTotals {
    pub files_scanned: Vec<CapScanFile>,
    pub events_parsed: u64,
    pub strings_extracted: u64,
    pub host_counts: Vec<CountedItem>,
    pub path_counts: Vec<CountedItem>,
    pub tool_counts: Vec<CountedItem>,
    pub samples: Vec<String>,
}

/// The samples with those of one more file: as many of them as fit until
/// thirty are kept.
pub open spec fn with_samples(kept: Seq<Seq<char>>, more: Seq<Seq<char>>) -> Seq<Seq<char>> {
    if kept.len() >= 30 {
        kept
    } else if kept.len() + more.len() <= 30 {
        kept + more
    } else {
        kept + more.take(30 - kept.len())
    }
}

/// `after` are the totals `before` with the scan `acc` of the file `file`
/// of the source `source` taken in.
pub open spec fn absorbed(
    after: ScanTotals,
    before: ScanTotals,
    source: Seq<char>,
    file: Seq<char>,
    acc: ScanView,
) -> bool {
    &&& after.events_parsed == capped_sum(before.events_parsed, acc.events_parsed)
    &&& after.strings_extracted == capped_sum(before.strings_extracted, acc.strings_extracted)
    &&& counts_view(after.host_counts@) == merged(counts_view(before.host_counts@), acc.host_counts)
    &&& counts_view(after.path_counts@) == merged(counts_view(before.path_counts@), acc.path_counts)
    &&& counts_view(after.tool_counts@) == merged(counts_view(before.tool_counts@), acc.tool_counts)
    &&& views(after.samples@) == with_samples(views(before.samples@), acc.samples)
    &&& after.files_scanned@.len() == before.files_scanned@.len() + 1
    &&& after.files_scanned@.take(before.files_scanned@.len() as int) == before.files_scanned@
    &&& after.files_scanned@.last().source@ == source
    &&& after.files_scanned@.last().file@ == file
    &&& after.files_scanned@.last().size_bytes == acc.size_bytes
    &&& after.files_scanned@.last().tailed_lines == acc.tailed_lines
}

impl ScanTotals {
    /// The totals before any file is scanned.
    pub fn new() -> (t: ScanTotals)
        ensures
            t.files_scanned@.len() == 0,
            t.events_parsed == 0,
            t.strings_extracted == 0,
            t.host_counts@.len() == 0,
            t.path_counts@.len() == 0,
            t.tool_counts@.len() == 0,
            t.samples@.len() == 0,
    {
        ScanTotals {
            files_scanned: Vec::new(),
            events_parsed: 0,
            strings_extracted: 0,
            host_counts: Vec::new(),
            path_counts: Vec::new(),
            tool_counts: Vec::new(),
            samples: Vec::new(),
        }
    }

    /// Takes the scan of one file into the totals.
    pub fn absorb(&mut self, source: &str, file: &str, acc: FileScanAccum)
        ensures
            absorbed(*final(self), *old(self), source@, file@, acc@),
    {
        let ghost more = views(acc.samples@);
        let ghost kept = views(self.samples@);
        let ghost files = self.files_scanned@;
        self.events_parsed = self.events_parsed.saturating_add(acc.events_parsed);
        self.strings_extracted = self.strings_extracted.saturating_add(acc.strings_extracted);
        merge_counts(&mut self.host_counts, acc.host_counts);
        merge_counts(&mut self.path_counts, acc.path_counts);
        merge_counts(&mut self.tool_counts, acc.tool_counts);
        let mut i: usize = 0;
        assert(more.take(0) =~= Seq::<Seq<char>>::empty());
        assert(kept + more.take(0) =~= kept);
        while i < acc.samples.len() && self.samples.len() < 30
            invariant
                i <= acc.samples.len(),
                more == views(acc.samples@),
                self.files_scanned@ == files,
                views(self.samples@) == kept + more.take(i as int),
                kept.len() >= 30 ==> i == 0,
                kept.len() < 30 ==> kept.len() + i <= 30,
                self.events_parsed == capped_sum(old(self).events_parsed, acc.events_parsed),
                self.strings_extracted == capped_sum(
                    old(self).strings_extracted,
                    acc.strings_extracted,
                ),
                counts_view(self.host_counts@) == merged(
                    counts_view(old(self).host_counts@),
                    counts_view(acc.host_counts@),
                ),
                counts_view(self.path_counts@) == merged(
                    counts_view(old(self).path_counts@),
                    counts_view(acc.path_counts@),
                ),
                counts_view(self.tool_counts@) == merged(
                    counts_view(old(self).tool_counts@),
                    counts_view(acc.tool_counts@),
                ),
            decreases acc.samples.len() - i,
        {
            let ghost before = views(self.samples@);
            self.samples.push(acc.samples[i].clone());
            proof {
                assert(views(self.samples@) =~= before.push(more[i as int]));
                assert(more.take(i + 1) =~= more.take(i as int).push(more[i as int]));
                assert(kept + more.take(i + 1) =~= (kept + more.take(i as int)).push(
                    more[i as int],
                ));
            }
            i += 1;
        }
        proof {
            assert(more.take(more.len() as int) =~= more);
            assert(views(self.samples@) == with_samples(kept, more));
        }
        self.files_scanned.push(
            CapScanFile {
                source: source.to_owned(),
                file: file.to_owned(),
                size_bytes: acc.size_bytes,
                tailed_lines: acc.tailed_lines,
            },
        );
        assert(self.files_scanned@.take(files.len() as int) =~= files);
    }
}

/// What there is to do next with a report of capabilities.
pub open spec fn next_steps() -> Seq<Seq<char>> {
    seq![
        "Promote top_hosts/top_paths into a stable API surface doc."@,
        "Add /codex/search to find exact prior commands/snippets."@,
        "Add /codex/capabilities/export.md to publish a readable report."@,
    ]
}

/// The report of capabilities for these totals, made at the time
/// `generated_at`: the fifty hosts and paths that occur most often, and the
/// thirty tools.
pub fn capabilities(generated_at: &str, totals: ScanTotals) -> (r: CodexCapabilitiesResp)
    ensures
        r.generated_at@ == generated_at@,
        r.files_scanned@ == totals.files_scanned@,
        r.events_parsed == totals.events_parsed,
        r.strings_extracted == totals.strings_extracted,
        top_of(r.top_hosts@, totals.host_counts@, 50),
        top_of(r.top_paths@, totals.path_counts@, 50),
        top_of(r.tool_signals@, totals.tool_counts@, 30),
        r.samples@ == totals.samples@,
        views(r.next_actions@) == next_steps(),
{
    let mut next_actions: Vec<String> = Vec::new();
    next_actions.push("Promote top_hosts/top_paths into a stable API surface doc.".to_owned());
    next_actions.push("Add /codex/search to find exact prior commands/snippets.".to_owned());
    next_actions.push(
        "Add /codex/capabilities/export.md to publish a readable report.".to_owned(),
    );
    assert(views(next_actions@) =~= next_steps());
    CodexCapabilitiesResp {
        generated_at: generated_at.to_owned(),
        files_scanned: totals.files_scanned,
        events_parsed: totals.events_parsed,
        strings_extracted: totals.strings_extracted,
        top_hosts: top_n(totals.host_counts, 50),
        top_paths: top_n(totals.path_counts, 50),
        tool_signals: top_n(totals.tool_counts, 30),
        samples: totals.samples,
        next_actions,
    }
}

} // verus!
