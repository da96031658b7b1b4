//! Wiki snapshots: what a snapshot run reports, what it leaves out, and the
//! pages it writes.

use vstd::prelude::*;
use crate::api::codex::{counts_view, CountedItem};
use crate::level::{decimal, push_decimal};
use crate::text::{chars_of, html_escaped, is_str, push_all, push_html, push_str, text_of, views};

verus! {

/// What a wiki snapshot run reports.
#[derive(Debug)]
pub struct WikiResult {
    pub out_dir: String,
    pub files_count: usize,
    pub topfiles_count: usize,
    pub readme_copied: bool,
}

/// A directory of this name is left out of a snapshot: it holds what is
/// built, fetched or kept by tools.
pub open spec fn skipped_component(name: Seq<char>) -> bool {
    name == ".git"@ || name == "node_modules"@ || name == "target"@ || name == "dist"@ || name
        == "build"@ || name == ".next"@ || name == ".turbo"@ || name == ".cache"@ || name
        == "runs"@ || name == "archive"@ || name == "venv"@ || name == ".venv"@
}

/// Whether a directory of this name is left out of a snapshot.
pub fn should_skip_component(name: &str) -> (r: bool)
    ensures
        r == skipped_component(name@),
{
    let n = chars_of(name);
    is_str(&n, ".git") || is_str(&n, "node_modules") || is_str(&n, "target") || is_str(&n, "dist")
        || is_str(&n, "build") || is_str(&n, ".next") || is_str(&n, ".turbo") || is_str(
        &n,
        ".cache",
    ) || is_str(&n, "runs") || is_str(&n, "archive") || is_str(&n, "venv") || is_str(&n, ".venv")
}

/// How a file is shown relative to the base of a snapshot: `rel` is its path
/// under the base where it lies under it, `full` its whole path.
pub open spec fn shown_path(rel: Option<Seq<char>>, full: Seq<char>) -> Seq<char> {
    match rel {
        Some(r) => if r.len() == 0 {
            "."@
        } else {
            "./"@ + r
        },
        None => full,
    }
}

/// How a file is shown relative to the base of a snapshot.
pub fn rel_display(rel: Option<&str>, full: &str) -> (r: String)
    ensures
        r@ == shown_path(
            match rel {
                Some(x) => Some(x@),
                None => None,
            },
            full@,
        ),
{
    match rel {
        Some(x) => if x.unicode_len() == 0 {
            ".".to_owned()
        } else {
            crate::text::concat("./", x)
        },
        None => full.to_owned(),
    }
}

/// The lines of a folder summary: one for each count, in order.
pub open spec fn summary_lines(counts: Seq<(Seq<char>, u64)>) -> Seq<char>
    decreases counts.len(),
{
    if counts.len() == 0 {
        Seq::<char>::empty()
    } else {
        summary_lines(counts.drop_last()) + ("- "@ + counts.last().0 + ": "@ + decimal(
            counts.last().1 as nat,
        ) + " files\n"@)
    }
}

/// The folder summary of a snapshot: the number of files by top folder.
pub open spec fn folder_summary_text(counts: Seq<(Seq<char>, u64)>) -> Seq<char> {
    "# Folder Summary\n\n"@ + summary_lines(counts)
}

/// The folder summary of a snapshot, from the numbers of files by top
/// folder in the order in which they are to be listed.
pub fn folder_summary_md(counts: &Vec<CountedItem>) -> (r: String)
    ensures
        r@ == folder_summary_text(counts_view(counts@)),
{
    let ghost all = counts_view(counts@);
    let mut lines: Vec<char> = Vec::new();
    let mut i: usize = 0;
    assert(all.take(0) =~= Seq::<(Seq<char>, u64)>::empty());
    while i < counts.len()
        invariant
            i <= counts.len(),
            all == counts_view(counts@),
            lines@ == summary_lines(all.take(i as int)),
        decreases counts.len() - i,
    {
        proof {
            assert(all.take(i + 1).drop_last() =~= all.take(i as int));
            assert(all.take(i + 1).last() == (counts@[i as int].key@, counts@[i as int].count));
        }
        let mut line = chars_of("- ");
        push_str(&mut line, counts[i].key.as_str());
        push_str(&mut line, ": ");
        push_decimal(&mut line, counts[i].count);
        push_str(&mut line, " files\n");
        push_all(&mut lines, &line);
        i += 1;
    }
    assert(all.take(counts@.len() as int) =~= all);
    let mut md = chars_of("# Folder Summary\n\n");
    push_all(&mut md, &lines);
    text_of(&md)
}

/// The index of a snapshot in Markdown.
pub open spec fn index_md_text(run_id: Seq<char>, generated: Seq<char>) -> Seq<char> {
    "# Local Wiki Snapshot\n\nRun ID: "@ + run_id + "  \nGenerated: "@ + generated
        + "\n\nArtifacts:\n- [files.txt](files.txt) — full inventory (depth ≤4)\n- [topfiles.txt](topfiles.txt) — top 200 files (rg --files or fallback)\n- [README.md](README.md) — workspace README (if present)\n- [folder_summary.md](folder_summary.md) — file counts by top folder\n\nHosting:\n- Open via engine: `http://127.0.0.1:8080/runs/wiki/"@
        + run_id + "/index.html`\n- Or serve directly: `python3 -m http.server 9000 --directory runs/wiki/"@
        + run_id + "`\n"@
}

/// The index of a snapshot in Markdown.
pub fn index_md(run_id: &str, generated: &str) -> (r: String)
    ensures
        r@ == index_md_text(run_id@, generated@),
{
    let mut md = chars_of("# Local Wiki Snapshot\n\nRun ID: ");
    push_str(&mut md, run_id);
    push_str(&mut md, "  \nGenerated: ");
    push_str(&mut md, generated);
    push_str(
        &mut md,
        "\n\nArtifacts:\n- [files.txt](files.txt) — full inventory (depth ≤4)\n- [topfiles.txt](topfiles.txt) — top 200 files (rg --files or fallback)\n- [README.md](README.md) — workspace README (if present)\n- [folder_summary.md](folder_summary.md) — file counts by top folder\n\nHosting:\n- Open via engine: `http://127.0.0.1:8080/runs/wiki/",
    );
    push_str(&mut md, run_id);
    push_str(
        &mut md,
        "/index.html`\n- Or serve directly: `python3 -m http.server 9000 --directory runs/wiki/",
    );
    push_str(&mut md, run_id);
    push_str(&mut md, "`\n");
    text_of(&md)
}

/// The index page of a snapshot.
pub open spec fn index_html_text() -> Seq<char> {
    "<!doctype html>\n<html>\n<head><meta charset=\"utf-8\"><title>Local Wiki Snapshot</title></head>\n<body>\n<h1>Local Wiki Snapshot</h1>\n<ul>\n  <li><a href=\"files.txt\">files.txt</a></li>\n  <li><a href=\"topfiles.txt\">topfiles.txt</a></li>\n  <li><a href=\"README.md\">README.md</a></li>\n  <li><a href=\"folder_summary.md\">folder_summary.md</a></li>\n</ul>\n<p>Open via engine: <code>/runs/wiki/&lt;run_id&gt;/index.html</code></p>\n</body>\n</html>\n"@
}

/// The index page of a snapshot.
pub fn index_html() -> (r: String)
    ensures
        r@ == index_html_text(),
{
    "<!doctype html>\n<html>\n<head><meta charset=\"utf-8\"><title>Local Wiki Snapshot</title></head>\n<body>\n<h1>Local Wiki Snapshot</h1>\n<ul>\n  <li><a href=\"files.txt\">files.txt</a></li>\n  <li><a href=\"topfiles.txt\">topfiles.txt</a></li>\n  <li><a href=\"README.md\">README.md</a></li>\n  <li><a href=\"folder_summary.md\">folder_summary.md</a></li>\n</ul>\n<p>Open via engine: <code>/runs/wiki/&lt;run_id&gt;/index.html</code></p>\n</body>\n</html>\n".to_owned()
}

/// The items of the list of top files: the first `n` paths, one item each,
/// on lines of their own.
pub open spec fn topfile_items(topfiles: Seq<Seq<char>>, n: int) -> Seq<char>
    decreases n,
{
    if n <= 0 {
        Seq::<char>::empty()
    } else {
        topfile_items(topfiles, n - 1) + ((if n > 1 {
            "\n"@
        } else {
            Seq::<char>::empty()
        }) + "<li><code>"@ + html_escaped(topfiles[n - 1]) + "</code></li>"@)
    }
}

/// How many top files the page of a snapshot lists: two hundred at most.
pub open spec fn listed_count(n: nat) -> int {
    if n < 200 {
        n as int
    } else {
        200
    }
}

/// The page of a snapshot that needs no other file: it embeds the folder
/// summary and the first two hundred top files.
pub open spec fn static_html_text(
    run_id: Seq<char>,
    generated: Seq<char>,
    folder_summary: Seq<char>,
    topfiles: Seq<Seq<char>>,
) -> Seq<char> {
    PAGE_HEAD@ + run_id + PAGE_STYLE@ + run_id + PAGE_GENERATED@ + generated + PAGE_LINKS@
        + html_escaped(folder_summary) + PAGE_TOPFILES@ + topfile_items(
        topfiles,
        listed_count(topfiles.len()),
    ) + PAGE_FOOT@
}

/// The page of a snapshot that needs no other file.
pub fn static_html(run_id: &str, generated: &str, folder_summary_md: &str, topfiles: &Vec<String>) -> (r:
    String)
    ensures
        r@ == static_html_text(run_id@, generated@, folder_summary_md@, views(topfiles@)),
{
    let ghost all = views(topfiles@);
    let n: usize = if topfiles.len() < 200 {
        topfiles.len()
    } else {
        200
    };
    let mut items: Vec<char> = Vec::new();
    let mut i: usize = 0;
    while i < n
        invariant
            i <= n <= topfiles.len(),
            all == views(topfiles@),
            items@ == topfile_items(all, i as int),
        decreases n - i,
    {
        assert(all[i as int] == topfiles@[i as int]@);
        let mut item: Vec<char> = Vec::new();
        if i > 0 {
            item = chars_of("\n");
        }
        push_str(&mut item, "<li><code>");
        let mut escaped: Vec<char> = Vec::new();
        push_html(&mut escaped, &chars_of(topfiles[i].as_str()));
        assert(escaped@ =~= html_escaped(topfiles@[i as int]@));
        push_all(&mut item, &escaped);
        push_str(&mut item, "</code></li>");
        push_all(&mut items, &item);
        i += 1;
    }
    let mut summary: Vec<char> = Vec::new();
    push_html(&mut summary, &chars_of(folder_summary_md));
    assert(summary@ =~= html_escaped(folder_summary_md@));
    let mut out = chars_of(PAGE_HEAD);
    push_str(&mut out, run_id);
    push_str(&mut out, PAGE_STYLE);
    push_str(&mut out, run_id);
    push_str(&mut out, PAGE_GENERATED);
    push_str(&mut out, generated);
    push_str(&mut out, PAGE_LINKS);
    push_all(&mut out, &summary);
    push_str(&mut out, PAGE_TOPFILES);
    push_all(&mut out, &items);
    push_str(&mut out, PAGE_FOOT);
    text_of(&out)
}

/// The page of a snapshot up to its title.
pub const PAGE_HEAD: &'static str = "<!doctype html>\n<html lang=\"en\">\n<head>\n  <meta charset=\"utf-8\">\n  <meta name=\"viewport\" content=\"width=device-width,initial-scale=1\">\n  <title>Wiki Snapshot ";

/// The page of a snapshot from its style to the run it shows.
pub const PAGE_STYLE: &'static str = "</title>\n  <style>\n    body{font-family:system-ui,-apple-system,Segoe UI,Roboto,Arial;margin:24px;max-width:1100px}\n    h1{margin:0 0 6px 0}\n    .muted{color:#57606a}\n    code, pre{background:#f6f8fa;border:1px solid #d0d7de;border-radius:8px}\n    code{padding:2px 6px}\n    pre{padding:12px;overflow:auto}\n    .grid{display:grid;grid-template-columns:1fr 1fr;gap:14px}\n    @media (max-width: 860px){.grid{grid-template-columns:1fr}}\n    a{color:#1f6feb;text-decoration:none} a:hover{text-decoration:underline}\n    input{width:100%;padding:10px 12px;border:1px solid #d0d7de;border-radius:10px}\n    ul{margin:8px 0 0 0}\n  </style>\n</head>\n<body>\n  <h1>Wiki Snapshot</h1>\n  <div class=\"muted\">run_id: <code>";

/// The page of a snapshot between the run and the time it was generated.
pub const PAGE_GENERATED: &'static str = "</code> · generated: <code>";

/// The page of a snapshot from its links to the folder summary.
pub const PAGE_LINKS: &'static str = "</code></div>\n  <p>\n    Links:\n    <a href=\"index.html\">index.html</a> ·\n    <a href=\"index.md\">index.md</a> ·\n    <a href=\"files.txt\">files.txt</a> ·\n    <a href=\"topfiles.txt\">topfiles.txt</a> ·\n    <a href=\"folder_summary.md\">folder_summary.md</a>\n  </p>\n\n  <div class=\"grid\">\n    <section>\n      <h2>Folder Summary (embedded)</h2>\n      <pre>";

/// The page of a snapshot from the folder summary to the list of top files.
pub const PAGE_TOPFILES: &'static str = "</pre>\n    </section>\n    <section>\n      <h2>Top Files (embedded)</h2>\n      <div class=\"muted\">First 200 paths</div>\n      <input id=\"q\" placeholder=\"filter (client-side)...\" />\n      <ul id=\"list\">";

/// The page of a snapshot after the list of top files.
pub const PAGE_FOOT: &'static str = "</ul>\n    </section>\n  </div>\n\n  <script>\n    const q = document.getElementById('q');\n    const list = document.getElementById('list');\n    const items = Array.from(list.querySelectorAll('li'));\n    q.addEventListener('input', () => {\n      const needle = q.value.toLowerCase();\n      for (const li of items) {\n        const t = li.textContent.toLowerCase();\n        li.style.display = (!needle || t.includes(needle)) ? '' : 'none';\n      }\n    });\n  </script>\n</body>\n</html>\n";

} // verus!
