//! The pages of the graphs and of the thread report: the frame around the
//! drawing of a thread graph, around the lists of a receipts graph and of an
//! API graph, and around the keywords and the timeline of a thread report.

use vstd::prelude::*;
use crate::level::{decimal, push_decimal};
use crate::text::{chars_of, html_escaped, push_all, push_html, push_str, text_of};

verus! {

/// Part 1 of the page of a thread graph.
pub const THREAD_PAGE_0: &'static str = "<!doctype html>\n<html lang=\"en\">\n<head>\n  <meta charset=\"utf-8\">\n  <meta name=\"viewport\" content=\"width=device-width,initial-scale=1\">\n  <title>Thread Graph ";

/// Part 2 of the page of a thread graph.
pub const THREAD_PAGE_1: &'static str = "</title>\n  <style>\n    body{font-family:system-ui,-apple-system,Segoe UI,Roboto,Arial;margin:24px;max-width:1100px}\n    .muted{color:#57606a}\n    code, pre{background:#f6f8fa;border:1px solid #d0d7de;border-radius:10px}\n    code{padding:2px 6px}\n    pre{padding:12px;overflow:auto}\n    a{color:#1f6feb;text-decoration:none} a:hover{text-decoration:underline}\n    .row{display:flex;gap:10px;flex-wrap:wrap;align-items:center}\n    table{border-collapse:collapse;width:100%;margin-top:14px}\n    th,td{border-bottom:1px solid #f1f3f5;padding:8px 6px;text-align:left;vertical-align:top}\n    th{font-size:12px;color:#57606a}\n    .pill{display:inline-block;padding:1px 8px;border-radius:999px;border:1px solid #d0d7de;background:#f8f9fa;font-size:12px;color:#495057;margin-right:6px}\n  </style>\n</head>\n<body>\n  <h1>Thread Graph</h1>\n  <div class=\"muted\">\n    run_id: <code>";

/// Part 3 of the page of a thread graph.
pub const THREAD_PAGE_2: &'static str = "</code> · user: <code>";

/// Part 4 of the page of a thread graph.
pub const THREAD_PAGE_3: &'static str = "</code> · thread: <code>";

/// Part 5 of the page of a thread graph.
pub const THREAD_PAGE_4: &'static str = "</code> · nodes: <code>";

/// Part 6 of the page of a thread graph.
pub const THREAD_PAGE_5: &'static str = "</code> · edges: <code>";

/// Part 7 of the page of a thread graph.
pub const THREAD_PAGE_6: &'static str = "</code>\n  </div>\n  <div class=\"row\" style=\"margin-top:10px\">\n    <a href=\"graph.dot\">graph.dot</a>\n    <a href=\"events.json\">events.json</a>\n  </div>\n  <p class=\"muted\">Click a node to open its receipt.</p>\n  <div style=\"margin-top:12px\">";

/// Part 8 of the page of a thread graph.
pub const THREAD_PAGE_7: &'static str = "</div>\n  <h2 style=\"margin-top:18px\">Nodes</h2>\n  <div class=\"muted\">This table is the “user relevant” view: natural language + bits + links.</div>\n  <table>\n    <thead>\n      <tr>\n        <th>#</th>\n        <th>Role</th>\n        <th>Goal</th>\n        <th>Bits</th>\n        <th>Text</th>\n        <th>Links</th>\n      </tr>\n    </thead>\n    <tbody>";

/// Part 9 of the page of a thread graph.
pub const THREAD_PAGE_8: &'static str = "</tbody>\n  </table>\n</body>\n</html>\n";

/// The page of a thread graph.
pub open spec fn index_html_text(run_id: Seq<char>, user_id: Seq<char>, thread: Seq<char>, svg: Seq<char>, nodes: usize, edges: usize, table_html: Seq<char>) -> Seq<char> {
    THREAD_PAGE_0@ + html_escaped(run_id) + THREAD_PAGE_1@ + html_escaped(run_id) + THREAD_PAGE_2@ + html_escaped(user_id) + THREAD_PAGE_3@ + html_escaped(thread) + THREAD_PAGE_4@ + decimal(nodes as nat) + THREAD_PAGE_5@ + decimal(edges as nat) + THREAD_PAGE_6@ + svg + THREAD_PAGE_7@ + table_html + THREAD_PAGE_8@
}

/// The page of a thread graph.
pub fn index_html(run_id: &str, user_id: &str, thread: &str, svg: &str, nodes: usize, edges: usize, table_html: &str) -> (r: String)
    ensures
        r@ == index_html_text(run_id@, user_id@, thread@, svg@, nodes, edges, table_html@),
{
    let mut out = chars_of(THREAD_PAGE_0);
    let mut part: Vec<char> = Vec::new();
    push_html(&mut part, &chars_of(run_id));
    assert(part@ =~= html_escaped(run_id@));
    push_all(&mut out, &part);
    push_str(&mut out, THREAD_PAGE_1);
    let mut part: Vec<char> = Vec::new();
    push_html(&mut part, &chars_of(run_id));
    assert(part@ =~= html_escaped(run_id@));
    push_all(&mut out, &part);
    push_str(&mut out, THREAD_PAGE_2);
    let mut part: Vec<char> = Vec::new();
    push_html(&mut part, &chars_of(user_id));
    assert(part@ =~= html_escaped(user_id@));
    push_all(&mut out, &part);
    push_str(&mut out, THREAD_PAGE_3);
    let mut part: Vec<char> = Vec::new();
    push_html(&mut part, &chars_of(thread));
    assert(part@ =~= html_escaped(thread@));
    push_all(&mut out, &part);
    push_str(&mut out, THREAD_PAGE_4);
    let mut part: Vec<char> = Vec::new();
    push_decimal(&mut part, nodes as u64);
    assert(part@ =~= decimal(nodes as nat));
    push_all(&mut out, &part);
    push_str(&mut out, THREAD_PAGE_5);
    let mut part: Vec<char> = Vec::new();
    push_decimal(&mut part, edges as u64);
    assert(part@ =~= decimal(edges as nat));
    push_all(&mut out, &part);
    push_str(&mut out, THREAD_PAGE_6);
    push_str(&mut out, svg);
    push_str(&mut out, THREAD_PAGE_7);
    push_str(&mut out, table_html);
    push_str(&mut out, THREAD_PAGE_8);
    text_of(&out)
}

/// Part 1 of the page of a receipts graph.
pub const RECEIPTS_PAGE_0: &'static str = "<!doctype html>\n<html lang=\"en\">\n<head>\n  <meta charset=\"utf-8\">\n  <meta name=\"viewport\" content=\"width=device-width,initial-scale=1\">\n  <title>Receipts Graph ";

/// Part 2 of the page of a receipts graph.
pub const RECEIPTS_PAGE_1: &'static str = "</title>\n  <style>\n    body{font-family:system-ui,-apple-system,Segoe UI,Roboto,Arial;margin:24px;max-width:1100px}\n    .muted{color:#57606a}\n    code{background:#f6f8fa;border:1px solid #d0d7de;border-radius:10px;padding:2px 6px}\n    a{color:#1f6feb;text-decoration:none} a:hover{text-decoration:underline}\n    input{width:100%;padding:10px 12px;border:1px solid #d0d7de;border-radius:10px;margin:12px 0}\n    .box{border:1px solid #d0d7de;border-radius:12px;overflow:auto;max-height:75vh}\n    ol{margin:0;padding:10px 10px 10px 34px}\n    li{padding:6px 8px;border-bottom:1px solid #f1f3f5}\n    li:last-child{border-bottom:none}\n    .pill{display:inline-block;padding:1px 8px;border-radius:999px;border:1px solid #d0d7de;background:#f8f9fa;font-size:12px;color:#495057;margin-left:8px}\n  </style>\n</head>\n<body>\n  <h1>Receipts Graph</h1>\n  <div class=\"muted\">\n    run_id: <code>";

/// Part 3 of the page of a receipts graph.
pub const RECEIPTS_PAGE_2: &'static str = "</code> · nodes: <code>";

/// Part 4 of the page of a receipts graph.
pub const RECEIPTS_PAGE_3: &'static str = "</code> · edges: <code>";

/// Part 5 of the page of a receipts graph.
pub const RECEIPTS_PAGE_4: &'static str = "</code>\n  </div>\n  <div class=\"muted\" style=\"margin-top:8px\">\n    Links: <a href=\"graph.dot\">graph.dot</a> · <a href=\"events.json\">events.json</a>\n  </div>\n\n  <input id=\"q\" placeholder=\"filter by goal_id / run_id...\" />\n  <div class=\"box\">\n    <ol id=\"list\">";

/// Part 6 of the page of a receipts graph.
pub const RECEIPTS_PAGE_5: &'static str = "</ol>\n  </div>\n\n  <script>\n    const q = document.getElementById('q');\n    const list = document.getElementById('list');\n    q.addEventListener('input', () => {\n      const term = (q.value || '').toLowerCase().trim();\n      for (const li of list.querySelectorAll('li')) {\n        const t = (li.getAttribute('data-t') || '').toLowerCase();\n        li.style.display = !term || t.includes(term) ? '' : 'none';\n      }\n    });\n  </script>\n</body>\n</html>\n";

/// The page of a receipts graph.
pub open spec fn index_html_receipts_text(run_id: Seq<char>, nodes: usize, edges: usize, items_html: Seq<char>) -> Seq<char> {
    RECEIPTS_PAGE_0@ + html_escaped(run_id) + RECEIPTS_PAGE_1@ + html_escaped(run_id) + RECEIPTS_PAGE_2@ + decimal(nodes as nat) + RECEIPTS_PAGE_3@ + decimal(edges as nat) + RECEIPTS_PAGE_4@ + items_html + RECEIPTS_PAGE_5@
}

/// The page of a receipts graph.
pub fn index_html_receipts(run_id: &str, nodes: usize, edges: usize, items_html: &str) -> (r: String)
    ensures
        r@ == index_html_receipts_text(run_id@, nodes, edges, items_html@),
{
    let mut out = chars_of(RECEIPTS_PAGE_0);
    let mut part: Vec<char> = Vec::new();
    push_html(&mut part, &chars_of(run_id));
    assert(part@ =~= html_escaped(run_id@));
    push_all(&mut out, &part);
    push_str(&mut out, RECEIPTS_PAGE_1);
    let mut part: Vec<char> = Vec::new();
    push_html(&mut part, &chars_of(run_id));
    assert(part@ =~= html_escaped(run_id@));
    push_all(&mut out, &part);
    push_str(&mut out, RECEIPTS_PAGE_2);
    let mut part: Vec<char> = Vec::new();
    push_decimal(&mut part, nodes as u64);
    assert(part@ =~= decimal(nodes as nat));
    push_all(&mut out, &part);
    push_str(&mut out, RECEIPTS_PAGE_3);
    let mut part: Vec<char> = Vec::new();
    push_decimal(&mut part, edges as u64);
    assert(part@ =~= decimal(edges as nat));
    push_all(&mut out, &part);
    push_str(&mut out, RECEIPTS_PAGE_4);
    push_str(&mut out, items_html);
    push_str(&mut out, RECEIPTS_PAGE_5);
    text_of(&out)
}

/// Part 1 of the page of an API graph.
pub const API_PAGE_0: &'static str = "<!doctype html>\n<html lang=\"en\">\n<head>\n  <meta charset=\"utf-8\">\n  <meta name=\"viewport\" content=\"width=device-width,initial-scale=1\">\n  <title>API Jump Graph ";

/// Part 2 of the page of an API graph.
pub const API_PAGE_1: &'static str = "</title>\n  <style>\n    body{font-family:system-ui,-apple-system,Segoe UI,Roboto,Arial;margin:24px;max-width:1100px}\n    .muted{color:#57606a}\n    code{background:#f6f8fa;border:1px solid #d0d7de;border-radius:10px;padding:2px 6px}\n    a{color:#1f6feb;text-decoration:none} a:hover{text-decoration:underline}\n    input{width:100%;padding:10px 12px;border:1px solid #d0d7de;border-radius:10px;margin:12px 0}\n    .box{border:1px solid #d0d7de;border-radius:12px;overflow:auto;max-height:75vh}\n    table{border-collapse:collapse;width:100%}\n    th,td{border-bottom:1px solid #f1f3f5;padding:8px 6px;text-align:left;vertical-align:top}\n    th{font-size:12px;color:#57606a;position:sticky;top:0;background:#fff}\n    .pill{display:inline-block;padding:1px 8px;border-radius:999px;border:1px solid #d0d7de;background:#f8f9fa;font-size:12px;color:#495057;margin-right:6px}\n    .mut{background:#fff5f5}\n  </style>\n</head>\n<body>\n  <h1>API Jump Graph</h1>\n  <div class=\"muted\">\n    run_id: <code>";

/// Part 3 of the page of an API graph.
pub const API_PAGE_2: &'static str = "</code> · nodes: <code>";

/// Part 4 of the page of an API graph.
pub const API_PAGE_3: &'static str = "</code> · edges: <code>";

/// Part 5 of the page of an API graph.
pub const API_PAGE_4: &'static str = "</code>\n  </div>\n  <div class=\"muted\" style=\"margin-top:8px\">\n    Links: <a href=\\\"graph.dot\\\">graph.dot</a> · <a href=\\\"events.json\\\">events.json</a>\n  </div>\n  <input id=\\\"q\\\" placeholder=\\\"filter by path/method/run_id...\\\" />\n  <div class=\\\"box\\\">\n    <table>\n      <thead><tr><th>#</th><th>ts</th><th>method</th><th>path</th><th>status</th><th>ms</th><th>run_id</th><th>thread</th></tr></thead>\n      <tbody id=\\\"list\\\">";

/// Part 6 of the page of an API graph.
pub const API_PAGE_5: &'static str = "</tbody>\n    </table>\n  </div>\n  <script>\n    const q = document.getElementById('q');\n    const list = document.getElementById('list');\n    q.addEventListener('input', () => {\n      const term = (q.value || '').toLowerCase().trim();\n      for (const tr of list.querySelectorAll('tr')) {\n        const t = (tr.getAttribute('data-t') || '').toLowerCase();\n        tr.style.display = !term || t.includes(term) ? '' : 'none';\n      }\n    });\n  </script>\n</body>\n</html>\n";

/// The page of an API graph.
pub open spec fn index_html_api_text(run_id: Seq<char>, nodes: usize, edges: usize, items_html: Seq<char>) -> Seq<char> {
    API_PAGE_0@ + html_escaped(run_id) + API_PAGE_1@ + html_escaped(run_id) + API_PAGE_2@ + decimal(nodes as nat) + API_PAGE_3@ + decimal(edges as nat) + API_PAGE_4@ + items_html + API_PAGE_5@
}

/// The page of an API graph.
pub fn index_html_api(run_id: &str, nodes: usize, edges: usize, items_html: &str) -> (r: String)
    ensures
        r@ == index_html_api_text(run_id@, nodes, edges, items_html@),
{
    let mut out = chars_of(API_PAGE_0);
    let mut part: Vec<char> = Vec::new();
    push_html(&mut part, &chars_of(run_id));
    assert(part@ =~= html_escaped(run_id@));
    push_all(&mut out, &part);
    push_str(&mut out, API_PAGE_1);
    let mut part: Vec<char> = Vec::new();
    push_html(&mut part, &chars_of(run_id));
    assert(part@ =~= html_escaped(run_id@));
    push_all(&mut out, &part);
    push_str(&mut out, API_PAGE_2);
    let mut part: Vec<char> = Vec::new();
    push_decimal(&mut part, nodes as u64);
    assert(part@ =~= decimal(nodes as nat));
    push_all(&mut out, &part);
    push_str(&mut out, API_PAGE_3);
    let mut part: Vec<char> = Vec::new();
    push_decimal(&mut part, edges as u64);
    assert(part@ =~= decimal(edges as nat));
    push_all(&mut out, &part);
    push_str(&mut out, API_PAGE_4);
    push_str(&mut out, items_html);
    push_str(&mut out, API_PAGE_5);
    text_of(&out)
}

/// Part 1 of the page of a thread report.
pub const REPORT_PAGE_0: &'static str = "<!doctype html>\n<html lang=\"en\">\n<head>\n  <meta charset=\"utf-8\">\n  <meta name=\"viewport\" content=\"width=device-width,initial-scale=1\">\n  <title>Thread Report ";

/// Part 2 of the page of a thread report.
pub const REPORT_PAGE_1: &'static str = "</title>\n  <style>\n    body{font-family:system-ui,-apple-system,Segoe UI,Roboto,Arial;margin:24px;max-width:1200px}\n    .muted{color:#57606a}\n    code{background:#f6f8fa;border:1px solid #d0d7de;border-radius:10px;padding:2px 6px}\n    a{color:#1f6feb;text-decoration:none} a:hover{text-decoration:underline}\n    input{width:100%;padding:10px 12px;border:1px solid #d0d7de;border-radius:10px;margin:12px 0}\n    table{border-collapse:collapse;width:100%}\n    th,td{border-bottom:1px solid #f1f3f5;padding:8px 6px;text-align:left;vertical-align:top}\n    th{font-size:12px;color:#57606a;position:sticky;top:0;background:#fff}\n    .pill{display:inline-block;padding:1px 8px;border-radius:999px;border:1px solid #d0d7de;background:#f8f9fa;font-size:12px;color:#495057;margin-right:6px}\n    .ok{background:#ebfbee} .fail{background:#fff5f5}\n    .box{border:1px solid #d0d7de;border-radius:12px;overflow:auto;max-height:75vh}\n  </style>\n</head>\n<body>\n  <h1>Thread Report</h1>\n  <div class=\"muted\">user: <code>";

/// Part 3 of the page of a thread report.
pub const REPORT_PAGE_2: &'static str = "</code> · thread: <code>";

/// Part 4 of the page of a thread report.
pub const REPORT_PAGE_3: &'static str = "</code> · nodes: <code>";

/// Part 5 of the page of a thread report.
pub const REPORT_PAGE_4: &'static str = "</code></div>\n  <div class=\"muted\" style=\"margin-top:8px\">Links: <a href=\"report.json\">report.json</a></div>\n\n  <h2 style=\"margin-top:18px\">Keywords</h2>\n  <div class=\"muted\">Extracted from user messages (heuristic).</div>\n  <div style=\"margin-top:8px\">";

/// Part 6 of the page of a thread report.
pub const REPORT_PAGE_5: &'static str = "</div>\n\n  <h2 style=\"margin-top:18px\">Timeline</h2>\n  <input id=\"q\" placeholder=\"filter (role/goal/run_id/text)...\" />\n  <div class=\"box\">\n    <table>\n      <thead><tr><th>role</th><th>goal</th><th>run_id</th><th>ok</th><th>bits</th><th>text</th><th>links</th></tr></thead>\n      <tbody id=\"list\">";

/// Part 7 of the page of a thread report.
pub const REPORT_PAGE_6: &'static str = "</tbody>\n    </table>\n  </div>\n\n  <script>\n    const q = document.getElementById('q');\n    const list = document.getElementById('list');\n    q.addEventListener('input', () => {\n      const term = (q.value || '').toLowerCase().trim();\n      for (const tr of list.querySelectorAll('tr')) {\n        const t = (tr.getAttribute('data-t') || '').toLowerCase();\n        tr.style.display = !term || t.includes(term) ? '' : 'none';\n      }\n    });\n  </script>\n</body>\n</html>\n";

/// The page of a thread report.
pub open spec fn report_html_text(run_id: Seq<char>, user_id: Seq<char>, thread: Seq<char>, nodes: usize, kw_html: Seq<char>, rows_html: Seq<char>) -> Seq<char> {
    REPORT_PAGE_0@ + html_escaped(run_id) + REPORT_PAGE_1@ + html_escaped(user_id) + REPORT_PAGE_2@ + html_escaped(thread) + REPORT_PAGE_3@ + decimal(nodes as nat) + REPORT_PAGE_4@ + kw_html + REPORT_PAGE_5@ + rows_html + REPORT_PAGE_6@
}

/// The page of a thread report.
pub fn report_html(run_id: &str, user_id: &str, thread: &str, nodes: usize, kw_html: &str, rows_html: &str) -> (r: String)
    ensures
        r@ == report_html_text(run_id@, user_id@, thread@, nodes, kw_html@, rows_html@),
{
    let mut out = chars_of(REPORT_PAGE_0);
    let mut part: Vec<char> = Vec::new();
    push_html(&mut part, &chars_of(run_id));
    assert(part@ =~= html_escaped(run_id@));
    push_all(&mut out, &part);
    push_str(&mut out, REPORT_PAGE_1);
    let mut part: Vec<char> = Vec::new();
    push_html(&mut part, &chars_of(user_id));
    assert(part@ =~= html_escaped(user_id@));
    push_all(&mut out, &part);
    push_str(&mut out, REPORT_PAGE_2);
    let mut part: Vec<char> = Vec::new();
    push_html(&mut part, &chars_of(thread));
    assert(part@ =~= html_escaped(thread@));
    push_all(&mut out, &part);
    push_str(&mut out, REPORT_PAGE_3);
    let mut part: Vec<char> = Vec::new();
    push_decimal(&mut part, nodes as u64);
    assert(part@ =~= decimal(nodes as nat));
    push_all(&mut out, &part);
    push_str(&mut out, REPORT_PAGE_4);
    push_str(&mut out, kw_html);
    push_str(&mut out, REPORT_PAGE_5);
    push_str(&mut out, rows_html);
    push_str(&mut out, REPORT_PAGE_6);
    text_of(&out)
}

} // verus!
