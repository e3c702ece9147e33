//! Formatting of Tavily responses into the text a tool call returns. The spec
//! functions state the exact output text; the builders are proved to produce
//! it.
use vstd::prelude::*;

verus! {

use vstd::string::StringExecFns;
use crate::tavily::{ExtractResult, FailedResult, TavilyExtractResponse, TavilyResponse, TavilyResult};

/// The source line of one search hit in the answer section.
pub open spec fn source_line(r: TavilyResult) -> Seq<char> {
    "\n- "@ + r.title@ + ": "@ + r.url@
}

/// The source lines of the first `n` search hits.
pub open spec fn source_lines(rs: Seq<TavilyResult>, n: int) -> Seq<char>
    decreases n,
{
    if n <= 0 {
        Seq::empty()
    } else {
        source_lines(rs, n - 1) + source_line(rs[n - 1])
    }
}

/// The answer section, present exactly when the response carries an answer.
pub open spec fn answer_part(resp: TavilyResponse) -> Seq<char> {
    match resp.answer {
        Some(a) => "Answer: "@ + a@ + "\n\nSources:"@ + source_lines(
            resp.results@,
            resp.results@.len() as int,
        ) + "\n\n"@,
        None => Seq::empty(),
    }
}

/// The raw content line of one search hit, present when it has raw content.
pub open spec fn raw_part(r: TavilyResult) -> Seq<char> {
    match r.raw_content {
        Some(rc) => "\nRaw Content: "@ + rc@,
        None => Seq::empty(),
    }
}

/// The detailed block of one search hit.
pub open spec fn detail_block(r: TavilyResult) -> Seq<char> {
    "\n\nTitle: "@ + r.title@ + "\nURL: "@ + r.url@ + "\nContent: "@ + r.content@ + raw_part(r)
}

/// The detailed blocks of the first `n` search hits.
pub open spec fn detail_blocks(rs: Seq<TavilyResult>, n: int) -> Seq<char>
    decreases n,
{
    if n <= 0 {
        Seq::empty()
    } else {
        detail_blocks(rs, n - 1) + detail_block(rs[n - 1])
    }
}

/// The whole text of a formatted search response.
pub open spec fn formatted_search(resp: TavilyResponse) -> Seq<char> {
    answer_part(resp) + "Detailed Results:"@ + detail_blocks(
        resp.results@,
        resp.results@.len() as int,
    )
}

/// Formats a search response: the answer with its sources when one is
/// present, then every hit in order with title, URL, content and raw content.
#[verifier::loop_isolation(false)]
pub fn format_tavily_results(resp: &TavilyResponse) -> (out: String)
    ensures
        out@ == formatted_search(*resp),
{
    let mut out = String::new();
    match &resp.answer {
        Some(a) => {
            out.append("Answer: ");
            out.append(a.as_str());
            out.append("\n\nSources:");
            proof {
                assert(out@ =~= "Answer: "@ + a@ + "\n\nSources:"@ + source_lines(
                    resp.results@,
                    0,
                ));
            }
            let mut i: usize = 0;
            while i < resp.results.len()
                invariant
                    i <= resp.results@.len(),
                    out@ == "Answer: "@ + a@ + "\n\nSources:"@ + source_lines(
                        resp.results@,
                        i as int,
                    ),
                decreases resp.results@.len() - i,
            {
                let r = &resp.results[i];
                out.append("\n- ");
                out.append(r.title.as_str());
                out.append(": ");
                out.append(r.url.as_str());
                proof {
                    assert(out@ =~= "Answer: "@ + a@ + "\n\nSources:"@ + source_lines(
                        resp.results@,
                        i as int + 1,
                    ));
                }
                i += 1;
            }
            out.append("\n\n");
            proof {
                assert(out@ =~= answer_part(*resp));
            }
        }
        None => {
            proof {
                assert(out@ =~= answer_part(*resp));
            }
        }
    }
    out.append("Detailed Results:");
    proof {
        assert(out@ =~= answer_part(*resp) + "Detailed Results:"@ + detail_blocks(
            resp.results@,
            0,
        ));
    }
    let mut i: usize = 0;
    while i < resp.results.len()
        invariant
            i <= resp.results@.len(),
            out@ == answer_part(*resp) + "Detailed Results:"@ + detail_blocks(
                resp.results@,
                i as int,
            ),
        decreases resp.results@.len() - i,
    {
        let r = &resp.results[i];
        out.append("\n\nTitle: ");
        out.append(r.title.as_str());
        out.append("\nURL: ");
        out.append(r.url.as_str());
        out.append("\nContent: ");
        out.append(r.content.as_str());
        match &r.raw_content {
            Some(rc) => {
                out.append("\nRaw Content: ");
                out.append(rc.as_str());
            }
            None => {}
        }
        proof {
            assert(out@ =~= answer_part(*resp) + "Detailed Results:"@ + detail_blocks(
                resp.results@,
                i as int + 1,
            ));
        }
        i += 1;
    }
    out
}

/// The image URLs of one extracted page, joined by a comma and a space.
pub open spec fn images_joined(ss: Seq<String>, n: int) -> Seq<char>
    decreases n,
{
    if n <= 0 {
        Seq::empty()
    } else if n == 1 {
        ss[0]@
    } else {
        images_joined(ss, n - 1) + ", "@ + ss[n - 1]@
    }
}

/// The images line of one extracted page, present when it has images.
pub open spec fn images_part(r: ExtractResult) -> Seq<char> {
    match r.images {
        Some(im) => "\nImages: "@ + images_joined(im@, im@.len() as int),
        None => Seq::empty(),
    }
}

/// The block of one extracted page.
pub open spec fn extract_block(r: ExtractResult) -> Seq<char> {
    "\n\nURL: "@ + r.url@ + "\nRaw Content: "@ + r.raw_content@ + images_part(r)
}

/// The blocks of the first `n` extracted pages.
pub open spec fn extract_blocks(rs: Seq<ExtractResult>, n: int) -> Seq<char>
    decreases n,
{
    if n <= 0 {
        Seq::empty()
    } else {
        extract_blocks(rs, n - 1) + extract_block(rs[n - 1])
    }
}

/// The block of one failed page.
pub open spec fn failed_block(f: FailedResult) -> Seq<char> {
    "\n\nURL: "@ + f.url@ + "\nError: "@ + f.error@
}

/// The blocks of the first `n` failed pages.
pub open spec fn failed_blocks(fs: Seq<FailedResult>, n: int) -> Seq<char>
    decreases n,
{
    if n <= 0 {
        Seq::empty()
    } else {
        failed_blocks(fs, n - 1) + failed_block(fs[n - 1])
    }
}

/// The failed section, present exactly when the response reports failures.
pub open spec fn failed_part(resp: TavilyExtractResponse) -> Seq<char> {
    match resp.failed_results {
        Some(fs) => "\n\nFailed Results:"@ + failed_blocks(fs@, fs@.len() as int),
        None => Seq::empty(),
    }
}

/// The whole text of a formatted extract response.
pub open spec fn formatted_extract(resp: TavilyExtractResponse) -> Seq<char> {
    "Extracted Results:"@ + extract_blocks(resp.results@, resp.results@.len() as int)
        + failed_part(resp) + "\n\nResponse Time: "@ + resp.response_time@ + " seconds"@
}

/// Formats an extract response: every extracted page with its URL, raw
/// content and images, the failures when any, and the response time.
#[verifier::loop_isolation(false)]
pub fn format_tavily_extract_results(resp: &TavilyExtractResponse) -> (out: String)
    ensures
        out@ == formatted_extract(*resp),
{
    let mut out = String::new();
    out.append("Extracted Results:");
    proof {
        assert(out@ =~= "Extracted Results:"@ + extract_blocks(resp.results@, 0));
    }
    let mut i: usize = 0;
    while i < resp.results.len()
        invariant
            i <= resp.results@.len(),
            out@ == "Extracted Results:"@ + extract_blocks(resp.results@, i as int),
        decreases resp.results@.len() - i,
    {
        let r = &resp.results[i];
        out.append("\n\nURL: ");
        out.append(r.url.as_str());
        out.append("\nRaw Content: ");
        out.append(r.raw_content.as_str());
        match &r.images {
            Some(im) => {
                out.append("\nImages: ");
                let ghost before = out@;
                proof {
                    assert(out@ =~= before + images_joined(im@, 0));
                }
                let mut k: usize = 0;
                while k < im.len()
                    invariant
                        k <= im@.len(),
                        out@ == before + images_joined(im@, k as int),
                    decreases im@.len() - k,
                {
                    if k > 0 {
                        out.append(", ");
                    }
                    out.append(im[k].as_str());
                    proof {
                        assert(out@ =~= before + images_joined(im@, k as int + 1));
                    }
                    k += 1;
                }
            }
            None => {}
        }
        proof {
            assert(out@ =~= "Extracted Results:"@ + extract_blocks(resp.results@, i as int + 1));
        }
        i += 1;
    }
    match &resp.failed_results {
        Some(fs) => {
            out.append("\n\nFailed Results:");
            let ghost head = "Extracted Results:"@ + extract_blocks(
                resp.results@,
                resp.results@.len() as int,
            ) + "\n\nFailed Results:"@;
            proof {
                assert(out@ =~= head + failed_blocks(fs@, 0));
            }
            let mut i: usize = 0;
            while i < fs.len()
                invariant
                    i <= fs@.len(),
                    out@ == head + failed_blocks(fs@, i as int),
                decreases fs@.len() - i,
            {
                let f = &fs[i];
                out.append("\n\nURL: ");
                out.append(f.url.as_str());
                out.append("\nError: ");
                out.append(f.error.as_str());
                proof {
                    assert(out@ =~= head + failed_blocks(fs@, i as int + 1));
                }
                i += 1;
            }
        }
        None => {}
    }
    proof {
        assert(out@ =~= "Extracted Results:"@ + extract_blocks(
            resp.results@,
            resp.results@.len() as int,
        ) + failed_part(*resp));
    }
    out.append("\n\nResponse Time: ");
    out.append(resp.response_time.as_str());
    out.append(" seconds");
    proof {
        assert(out@ =~= formatted_extract(*resp));
    }
    out
}

} // verus!
