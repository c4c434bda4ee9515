//! Presentation: the choice between console output and download mode, and
//! the exact text the console mode emits. The rendering is pure; the caller
//! does the actual printing.

use crate::results::SearchResult;
use vstd::prelude::*;

verus! {

/// How the results of one invocation are presented.
#[derive(Debug, Clone)]
pub enum OutputMode {
    Console,
    Download { output_dir: String, unsafe_mode: bool },
}

/// Selects the mode from the command line surface: the presence of the
/// output option alone enables download mode; an empty value falls back to
/// the current directory.
pub fn select_mode(output: Option<String>, unsafe_mode: bool) -> (m: OutputMode)
    ensures
        output.is_none() ==> m is Console,
        output.is_some() ==> (m matches OutputMode::Download { output_dir, unsafe_mode: u } && u
            == unsafe_mode && output_dir@ == (if output.unwrap()@.len() == 0 {
            "."@
        } else {
            output.unwrap()@
        })),
{
    match output {
        None => OutputMode::Console,
        Some(dir) => {
            if dir.as_str().unicode_len() == 0 {
                OutputMode::Download { output_dir: ".".to_owned(), unsafe_mode }
            } else {
                OutputMode::Download { output_dir: dir, unsafe_mode }
            }
        },
    }
}

/// One console block: title, link and description on their own lines, then a
/// blank line.
pub open spec fn render_block_spec(title: Seq<char>, link: Seq<char>, description: Seq<char>) -> Seq<
    char,
> {
    title + "\n"@ + link + "\n"@ + description + "\n"@ + "\n"@
}

/// The whole console output: one block per result, in input order.
pub open spec fn render_console_spec(rs: Seq<SearchResult>) -> Seq<char>
    decreases rs.len(),
{
    if rs.len() == 0 {
        Seq::empty()
    } else {
        render_block_spec(rs[0].title@, rs[0].link@, rs[0].description@) + render_console_spec(
            rs.drop_first(),
        )
    }
}

proof fn lemma_render_snoc(rs: Seq<SearchResult>, x: SearchResult)
    ensures
        render_console_spec(rs.push(x)) == render_console_spec(rs) + render_block_spec(
            x.title@,
            x.link@,
            x.description@,
        ),
    decreases rs.len(),
{
    let block = render_block_spec(x.title@, x.link@, x.description@);
    let ps = rs.push(x);
    if rs.len() == 0 {
        assert(ps.drop_first() =~= Seq::<SearchResult>::empty());
        assert(ps[0] == x);
        assert(render_console_spec(ps) == block + render_console_spec(ps.drop_first()));
        assert(render_console_spec(ps.drop_first()) == Seq::<char>::empty());
        assert(block + Seq::<char>::empty() =~= Seq::<char>::empty() + block);
        assert(render_console_spec(rs) == Seq::<char>::empty());
    } else {
        assert(ps.drop_first() =~= rs.drop_first().push(x));
        lemma_render_snoc(rs.drop_first(), x);
        assert(ps[0] == rs[0]);
        let b0 = render_block_spec(rs[0].title@, rs[0].link@, rs[0].description@);
        assert(render_console_spec(ps) == b0 + render_console_spec(ps.drop_first()));
        assert(render_console_spec(ps.drop_first()) == render_console_spec(rs.drop_first())
            + block);
        assert(b0 + (render_console_spec(rs.drop_first()) + block) =~= (b0 + render_console_spec(
            rs.drop_first(),
        )) + block);
        assert(render_console_spec(rs) == b0 + render_console_spec(rs.drop_first()));
    }
}

/// Renders every result as a console block, in order.
pub fn render_console(results: &Vec<SearchResult>) -> (out: String)
    ensures
        out@ == render_console_spec(results@),
{
    let mut out = String::new();
    let mut i: usize = 0;
    while i < results.len()
        invariant
            i <= results@.len(),
            out@ == render_console_spec(results@.take(i as int)),
        decreases results@.len() - i,
    {
        let r = &results[i];
        out.append(r.title.as_str());
        out.append("\n");
        out.append(r.link.as_str());
        out.append("\n");
        out.append(r.description.as_str());
        out.append("\n");
        out.append("\n");
        proof {
            lemma_render_snoc(results@.take(i as int), results@[i as int]);
            assert(results@.take(i as int).push(results@[i as int]) =~= results@.take(i + 1));
            assert(out@ =~= render_console_spec(results@.take(i + 1)));
        }
        i = i + 1;
    }
    proof {
        assert(results@.take(results@.len() as int) =~= results@);
    }
    out
}

} // verus!
