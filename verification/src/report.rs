use vstd::prelude::*;
use vstd::string::StringExecFns;
use crate::cache::path_views;

verus! {

/// The note printed when nothing is tracked.
pub open spec fn empty_list_note() -> Seq<char> {
    "No files are currently tracked for undo.\n"@
}

/// One line per tracked path.
pub open spec fn list_lines(paths: Seq<Seq<char>>) -> Seq<char>
    decreases paths.len(),
{
    if paths.len() == 0 {
        Seq::empty()
    } else {
        paths[0] + "\n"@ + list_lines(paths.drop_first())
    }
}

/// The full text the listing prints: the empty-store note, or a heading
/// followed by one line per tracked path.
pub open spec fn list_text(paths: Seq<Seq<char>>) -> Seq<char> {
    if paths.len() == 0 {
        empty_list_note()
    } else {
        "Modified files:\n"@ + list_lines(paths)
    }
}

proof fn lemma_list_lines_snoc(v: Seq<Seq<char>>, i: int)
    requires
        0 <= i < v.len(),
    ensures
        list_lines(v.take(i + 1)) == list_lines(v.take(i)) + v[i] + "\n"@,
    decreases i,
{
    if i == 0 {
        assert(v.take(1) =~= seq![v[0]]);
        assert(v.take(1).drop_first() =~= Seq::<Seq<char>>::empty());
        assert(v.take(0) =~= Seq::<Seq<char>>::empty());
        assert(list_lines(Seq::<Seq<char>>::empty()) == Seq::<char>::empty());
        assert(list_lines(v.take(1)) =~= v[0] + "\n"@ + Seq::<char>::empty());
        assert(list_lines(v.take(1)) =~= list_lines(v.take(0)) + v[0] + "\n"@);
    } else {
        let t = v.drop_first();
        lemma_list_lines_snoc(t, i - 1);
        assert(v.take(i + 1).drop_first() =~= t.take(i));
        assert(v.take(i).drop_first() =~= t.take(i - 1));
        assert(list_lines(v.take(i + 1)) =~= v[0] + "\n"@ + list_lines(t.take(i)));
        assert(list_lines(v.take(i)) =~= v[0] + "\n"@ + list_lines(t.take(i - 1)));
        assert(v[0] + "\n"@ + (list_lines(t.take(i - 1)) + t[i - 1] + "\n"@) =~= (v[0] + "\n"@
            + list_lines(t.take(i - 1))) + v[i] + "\n"@);
    }
}

/// Render the listing of tracked paths, exactly as it is printed.
pub fn list_message(paths: &Vec<String>) -> (r: String)
    ensures
        r@ == list_text(path_views(paths@)),
{
    let ghost v = path_views(paths@);
    if paths.len() == 0 {
        return String::from_str("No files are currently tracked for undo.\n");
    }
    let mut out = String::from_str("Modified files:\n");
    let mut i: usize = 0;
    while i < paths.len()
        invariant
            0 <= i <= paths@.len(),
            v == path_views(paths@),
            v.len() == paths@.len(),
            out@ == "Modified files:\n"@ + list_lines(v.take(i as int)),
        decreases paths@.len() - i,
    {
        proof {
            assert(v[i as int] == paths@[i as int]@);
        }
        out.append(paths[i].as_str());
        out.append("\n");
        proof {
            lemma_list_lines_snoc(v, i as int);
            assert(out@ =~= "Modified files:\n"@ + list_lines(v.take(i + 1)));
        }
        i = i + 1;
    }
    proof {
        assert(v.take(v.len() as int) =~= v);
    }
    out
}

/// The line printed for one reverted file.
pub open spec fn reverted_text(path: Seq<char>) -> Seq<char> {
    "Reverted file: "@ + path
}

/// Render the line reporting one reverted file.
pub fn reverted_message(path: &str) -> (r: String)
    ensures
        r@ == reverted_text(path@),
{
    String::from_str("Reverted file: ").concat(path)
}

/// The line printed after a successful clear.
pub open spec fn cleared_text() -> Seq<char> {
    "History cleared."@
}

/// Render the confirmation printed after a successful clear.
pub fn cleared_message() -> (r: String)
    ensures
        r@ == cleared_text(),
{
    String::from_str("History cleared.")
}

} // verus!
