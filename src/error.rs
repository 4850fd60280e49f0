use vstd::prelude::*;
use vstd::string::StringExecFns;

verus! {

/// One layer of a failure's causal chain.
#[derive(Debug)]
pub enum ErrorKind {
    Msg(String),
}

impl ErrorKind {
    /// The text of this layer.
    pub open spec fn text(&self) -> Seq<char> {
        match self {
            ErrorKind::Msg(s) => s@,
        }
    }

    pub fn message(&self) -> (r: String)
        ensures
            r@ == self.text(),
    {
        match self {
            ErrorKind::Msg(s) => s.clone(),
        }
    }
}

/// The texts of a causal chain, outermost layer first.
pub open spec fn chain(v: Vec<ErrorKind>) -> Seq<Seq<char>> {
    v@.map_values(|e: ErrorKind| e.text())
}

/// The lines that report a causal chain: the outermost layer after `head`,
/// each cause after "> Caused by: ".
pub open spec fn report_lines(head: Seq<char>, c: Seq<Seq<char>>) -> Seq<Seq<char>> {
    Seq::new(
        c.len(),
        |i: int|
            if i == 0 {
                head + c[0]
            } else {
                "> Caused by: "@ + c[i]
            },
    )
}

fn report(head: &str, e: &Vec<ErrorKind>) -> (r: Vec<String>)
    ensures
        r@.map_values(|s: String| s@) == report_lines(head@, chain(*e)),
{
    let mut r: Vec<String> = Vec::new();
    let mut i: usize = 0;
    while i < e.len()
        invariant
            i <= e@.len(),
            r@.map_values(|s: String| s@) == report_lines(head@, chain(*e)).subrange(0, i as int),
        decreases e@.len() - i,
    {
        let mut line = if i == 0 {
            String::from_str(head)
        } else {
            String::from_str("> Caused by: ")
        };
        let m = e[i].message();
        line.append(m.as_str());
        let ghost before = r@.map_values(|s: String| s@);
        r.push(line);
        assert(r@.map_values(|s: String| s@) =~= before.push(line@));
        i = i + 1;
        assert(r@.map_values(|s: String| s@) =~= report_lines(head@, chain(*e)).subrange(0, i as int));
    }
    assert(report_lines(head@, chain(*e)).subrange(0, i as int) =~= report_lines(head@, chain(*e)));
    r
}

/// The lines that log a failure.
pub fn print_recursive_err(e: &Vec<ErrorKind>) -> (r: Vec<String>)
    ensures
        r@.map_values(|s: String| s@) == report_lines("ERROR: "@, chain(*e)),
{
    report("ERROR: ", e)
}

/// The lines that log a tolerated failure.
pub fn print_recursive_warning(e: &Vec<ErrorKind>) -> (r: Vec<String>)
    ensures
        r@.map_values(|s: String| s@) == report_lines("WARNING: "@, chain(*e)),
{
    report("WARNING: ", e)
}

} // verus!
