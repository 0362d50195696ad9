//! The body of the README: its lines joined, and the title and the license
//! line that may stand around it.

use vstd::prelude::*;

verus! {

/// The lines joined, with one line feed between each two of them.
pub open spec fn joined(lines: Seq<Seq<char>>) -> Seq<char>
    decreases lines.len(),
{
    if lines.len() == 0 {
        Seq::empty()
    } else if lines.len() == 1 {
        lines[0]
    } else {
        joined(lines.drop_last()) + seq!['\n'] + lines.last()
    }
}

/// The body under a title: a heading with the crate's name, an empty line,
/// and the body.
pub open spec fn titled(body: Seq<char>, name: Seq<char>) -> Seq<char> {
    "# "@ + name + "\n\n"@ + body
}

/// The body over a license line: the body, an empty line, and the license
/// behind its label.
pub open spec fn licensed(body: Seq<char>, license: Seq<char>) -> Seq<char> {
    body + "\n\nLicense: "@ + license
}

/// Joins the lines into one text, with a line feed between each two of them.
pub fn fold_data(data: Vec<String>) -> (text: String)
    ensures
        text@ == joined(data.deep_view()),
{
    let mut text = String::new();
    let mut i: usize = 0;
    let ghost lines = data.deep_view();
    while i < data.len()
        invariant
            i <= data.len(),
            lines == data.deep_view(),
            text@ == joined(lines.take(i as int)),
        decreases data.len() - i,
    {
        proof {
            reveal_strlit("\n");
            assert(lines.take(i + 1).drop_last() == lines.take(i as int));
        }
        if i > 0 {
            text.append("\n");
        }
        text.append(data[i].as_str());
        i += 1;
    }
    assert(lines.take(data.len() as int) == lines);
    text
}

/// Puts the title with the crate's name over the body.
pub fn prepend_title(readme: String, crate_name: &str) -> (text: String)
    ensures
        text@ == titled(readme@, crate_name@),
{
    let mut text = "# ".to_owned();
    text.append(crate_name);
    text.append("\n\n");
    text.append(readme.as_str());
    text
}

/// Puts the license line under the body.
pub fn append_license(readme: String, license: &str) -> (text: String)
    ensures
        text@ == licensed(readme@, license@),
{
    let mut text = readme;
    text.append("\n\nLicense: ");
    text.append(license);
    text
}

} // verus!
