//! Per-request scratch file names.
use vstd::prelude::*;
use vstd::string::StringExecFns;

verus! {

/// The character of a decimal digit.
pub open spec fn digit_char(d: int) -> char {
    if d == 0 {
        '0'
    } else if d == 1 {
        '1'
    } else if d == 2 {
        '2'
    } else if d == 3 {
        '3'
    } else if d == 4 {
        '4'
    } else if d == 5 {
        '5'
    } else if d == 6 {
        '6'
    } else if d == 7 {
        '7'
    } else if d == 8 {
        '8'
    } else {
        '9'
    }
}

/// The decimal notation of `n`, without leading zeros.
pub open spec fn decimal(n: nat) -> Seq<char>
    decreases n,
{
    if n < 10 {
        seq![digit_char(n as int)]
    } else {
        decimal(n / 10).push(digit_char((n % 10) as int))
    }
}

/// Scratch path of the markup handed to the rendering engine.
pub open spec fn markup_path(tag: u64, seq: u64) -> Seq<char> {
    "./"@ + decimal(tag as nat) + "-"@ + decimal(seq as nat) + ".html"@
}

/// Scratch path of the document that the rendering engine writes.
pub open spec fn output_path(tag: u64, seq: u64) -> Seq<char> {
    "./"@ + decimal(tag as nat) + "-"@ + decimal(seq as nat) + ".pdf"@
}

proof fn lemma_digit_char_injective(a: int, b: int)
    requires
        0 <= a < 10,
        0 <= b < 10,
        digit_char(a) == digit_char(b),
    ensures
        a == b,
{
}

proof fn lemma_decimal_len(n: nat)
    ensures
        decimal(n).len() >= 1,
        n >= 10 ==> decimal(n).len() >= 2,
    decreases n,
{
    if n >= 10 {
        lemma_decimal_len(n / 10);
    }
}

/// Distinct numbers have distinct decimal notations.
pub proof fn lemma_decimal_injective(a: nat, b: nat)
    requires
        decimal(a) == decimal(b),
    ensures
        a == b,
    decreases a,
{
    lemma_decimal_len(a);
    lemma_decimal_len(b);
    if a < 10 && b < 10 {
        assert(decimal(a) == seq![digit_char(a as int)]);
        assert(decimal(b) == seq![digit_char(b as int)]);
        assert(seq![digit_char(a as int)][0] == digit_char(a as int));
        assert(seq![digit_char(b as int)][0] == digit_char(b as int));
        lemma_digit_char_injective(a as int, b as int);
    } else if a >= 10 && b >= 10 {
        let da = decimal(a);
        let db = decimal(b);
        assert(da.last() == db.last());
        lemma_digit_char_injective((a % 10) as int, (b % 10) as int);
        assert(decimal(a / 10) == da.drop_last());
        assert(decimal(b / 10) == db.drop_last());
        lemma_decimal_injective(a / 10, b / 10);
    }
}

/// The decimal notation of one digit.
fn digit_str(d: u64) -> (r: &'static str)
    requires
        d < 10,
    ensures
        r@ == seq![digit_char(d as int)],
{
    proof {
        reveal_strlit("0");
        reveal_strlit("1");
        reveal_strlit("2");
        reveal_strlit("3");
        reveal_strlit("4");
        reveal_strlit("5");
        reveal_strlit("6");
        reveal_strlit("7");
        reveal_strlit("8");
        reveal_strlit("9");
    }
    if d == 0 {
        "0"
    } else if d == 1 {
        "1"
    } else if d == 2 {
        "2"
    } else if d == 3 {
        "3"
    } else if d == 4 {
        "4"
    } else if d == 5 {
        "5"
    } else if d == 6 {
        "6"
    } else if d == 7 {
        "7"
    } else if d == 8 {
        "8"
    } else {
        "9"
    }
}

/// Appends the decimal notation of `n` to `s`.
pub fn push_decimal(s: &mut String, n: u64)
    ensures
        final(s)@ == old(s)@ + decimal(n as nat),
    decreases n,
{
    if n < 10 {
        s.append(digit_str(n));
    } else {
        push_decimal(s, n / 10);
        s.append(digit_str(n % 10));
        assert(decimal(n as nat) == decimal((n / 10) as nat).push(digit_char((n % 10) as int)));
    }
}

/// Which of the two scratch files of a request.
#[derive(Clone, Copy, Debug, PartialEq, Eq, Structural)]
pub enum FileType {
    Html,
    Pdf,
}

/// The pair of scratch paths that one request owns: the markup it hands to
/// the rendering engine and the document the engine writes back.
pub struct ArtifactPaths {
    pub html_file_name: String,
    pub pdf_file_name: String,
}

impl ArtifactPaths {
    /// The paths of allocation number `seq` under the process tag `tag`.
    pub fn new(tag: u64, seq: u64) -> (r: ArtifactPaths)
        ensures
            r.html_file_name@ == markup_path(tag, seq),
            r.pdf_file_name@ == output_path(tag, seq),
    {
        let mut stem = String::from_str("./");
        push_decimal(&mut stem, tag);
        stem.append("-");
        push_decimal(&mut stem, seq);
        let mut html = stem.clone();
        html.append(".html");
        let mut pdf = stem;
        pdf.append(".pdf");
        proof {
            reveal_strlit("./");
            reveal_strlit("-");
            reveal_strlit(".html");
            reveal_strlit(".pdf");
        }
        ArtifactPaths { html_file_name: html, pdf_file_name: pdf }
    }

    /// The path of one of the two files.
    pub fn path_of(&self, kind: FileType) -> (r: &String)
        ensures
            kind == FileType::Html ==> r == &self.html_file_name,
            kind == FileType::Pdf ==> r == &self.pdf_file_name,
    {
        match kind {
            FileType::Html => &self.html_file_name,
            FileType::Pdf => &self.pdf_file_name,
        }
    }
}

/// Hands out scratch paths: each allocation gets the next number of a
/// counter, under a tag that sets this process apart from earlier ones.
pub struct ArtifactNamer {
    tag: u64,
    next: u64,
}

impl ArtifactNamer {
    pub closed spec fn tag(&self) -> u64 {
        self.tag
    }

    /// The number that the next allocation receives; every earlier one
    /// received a smaller number.
    pub closed spec fn issued(&self) -> u64 {
        self.next
    }

    pub fn new(tag: u64) -> (r: ArtifactNamer)
        ensures
            r.tag() == tag,
            r.issued() == 0,
    {
        ArtifactNamer { tag, next: 0 }
    }

    /// A fresh pair of paths, or `None` once the counter is spent.
    pub fn allocate(&mut self) -> (r: Option<ArtifactPaths>)
        ensures
            final(self).tag() == old(self).tag(),
            old(self).issued() == u64::MAX ==> r.is_none() && final(self).issued() == old(
                self,
            ).issued(),
            old(self).issued() < u64::MAX ==> {
                &&& r.is_some()
                &&& final(self).issued() == old(self).issued() + 1
                &&& r.unwrap().html_file_name@ == markup_path(old(self).tag(), old(self).issued())
                &&& r.unwrap().pdf_file_name@ == output_path(old(self).tag(), old(self).issued())
            },
    {
        if self.next == u64::MAX {
            None
        } else {
            let paths = ArtifactPaths::new(self.tag, self.next);
            self.next = self.next + 1;
            Some(paths)
        }
    }
}

/// Paths of distinct allocations never meet: under one tag, two different
/// allocation numbers give four different paths, and the markup path of an
/// allocation never equals the output path of any allocation.
pub proof fn lemma_paths_distinct(tag: u64, i: u64, j: u64)
    ensures
        markup_path(tag, i) != output_path(tag, j),
        i != j ==> markup_path(tag, i) != markup_path(tag, j),
        i != j ==> output_path(tag, i) != output_path(tag, j),
{
    let stem = "./"@ + decimal(tag as nat) + "-"@;
    reveal_strlit("./");
    reveal_strlit("-");
    reveal_strlit(".html");
    reveal_strlit(".pdf");
    let mi = markup_path(tag, i);
    let oj = output_path(tag, j);
    assert(mi.last() == 'l');
    assert(oj.last() == 'f');
    if i != j {
        if markup_path(tag, i) == markup_path(tag, j) {
            lemma_suffix_cancel(stem, decimal(i as nat), decimal(j as nat), ".html"@);
            lemma_decimal_injective(i as nat, j as nat);
        }
        if output_path(tag, i) == output_path(tag, j) {
            lemma_suffix_cancel(stem, decimal(i as nat), decimal(j as nat), ".pdf"@);
            lemma_decimal_injective(i as nat, j as nat);
        }
    }
}

proof fn lemma_suffix_cancel(p: Seq<char>, a: Seq<char>, b: Seq<char>, x: Seq<char>)
    requires
        p + a + x == p + b + x,
    ensures
        a == b,
{
    let l = p + a + x;
    assert(l.len() == (p + b + x).len());
    assert(a =~= l.subrange(p.len() as int, (p.len() + a.len()) as int));
    assert(b =~= (p + b + x).subrange(p.len() as int, (p.len() + b.len()) as int));
}

} // verus!
