//! Exporting a list as Markdown text.
use vstd::prelude::*;

verus! {

/// The texts joined end to end.
pub open spec fn joined(s: Seq<Seq<char>>) -> Seq<char>
    decreases s.len(),
{
    if s.len() == 0 {
        Seq::empty()
    } else {
        joined(s.drop_last()) + s.last()
    }
}

/// Views of a sequence of strings.
pub open spec fn texts(s: Seq<String>) -> Seq<Seq<char>> {
    s.map_values(|t: String| t@)
}

/// A list exported as Markdown: the list's own Markdown, a line break, and
/// its tasks' Markdown one after another.
pub fn export_list(list_markdown: &str, task_markdowns: &Vec<String>) -> (r: String)
    ensures
        r@ == list_markdown@ + seq!['\n'] + joined(texts(task_markdowns@)),
{
    let mut r = String::from_str(list_markdown);
    let nl = "\n";
    proof {
        reveal_strlit("\n");
    }
    r.append(nl);
    let ghost head = r@;
    let mut i: usize = 0;
    while i < task_markdowns.len()
        invariant
            i <= task_markdowns.len(),
            head == list_markdown@ + seq!['\n'],
            r@ == head + joined(texts(task_markdowns@).subrange(0, i as int)),
        decreases task_markdowns.len() - i,
    {
        r.append(task_markdowns[i].as_str());
        proof {
            let t = texts(task_markdowns@);
            assert(t.subrange(0, i + 1).drop_last() =~= t.subrange(0, i as int));
            assert(t.subrange(0, i + 1).last() == task_markdowns@[i as int]@);
        }
        i = i + 1;
    }
    proof {
        assert(texts(task_markdowns@).subrange(0, task_markdowns@.len() as int) =~= texts(task_markdowns@));
    }
    r
}

} // verus!
