//! Which URLs the renderer accepts, and what it waits for on each.
use vstd::prelude::*;
use vstd::string::StrSliceExecFns;

verus! {

/// `needle` occurs in `hay` as a contiguous run, starting at `i`.
pub open spec fn occurs_at(hay: Seq<char>, needle: Seq<char>, i: int) -> bool {
    0 <= i && i + needle.len() <= hay.len() && hay.subrange(i, i + needle.len()) == needle
}

/// `needle` occurs somewhere in `hay`.
pub open spec fn occurs_in(hay: Seq<char>, needle: Seq<char>) -> bool {
    exists|i: int| occurs_at(hay, needle, i)
}

/// Whether `needle` occurs in `hay`.
pub fn contains_text(hay: &str, needle: &str) -> (r: bool)
    ensures
        r == occurs_in(hay@, needle@),
{
    let n = hay.unicode_len();
    let m = needle.unicode_len();
    if m > n {
        return false;
    }
    let mut i: usize = 0;
    while i <= n - m
        invariant
            n == hay@.len(),
            m == needle@.len(),
            m <= n,
            i <= n - m + 1,
            forall|k: int| 0 <= k < i ==> !occurs_at(hay@, needle@, k),
        decreases n - m + 1 - i,
    {
        let mut j: usize = 0;
        let mut same = true;
        while j < m && same
            invariant
                n == hay@.len(),
                m == needle@.len(),
                i + m <= n,
                j <= m,
                same ==> forall|t: int| 0 <= t < j ==> hay@[i + t] == needle@[t],
                !same ==> !occurs_at(hay@, needle@, i as int),
            decreases m - j + (if same { 1int } else { 0int }),
        {
            if hay.get_char(i + j) != needle.get_char(j) {
                same = false;
                assert(hay@.subrange(i as int, i + m)[j as int] != needle@[j as int]);
            } else {
                j = j + 1;
            }
        }
        if same {
            assert(hay@.subrange(i as int, i + m) =~= needle@);
            assert(occurs_at(hay@, needle@, i as int));
            return true;
        }
        if i == n - m {
            return false;
        }
        i = i + 1;
    }
    false
}

/// A kind of page that the renderer knows: URLs that contain `marker` hold
/// their content in the element that `selector` names, which appears once
/// the page has finished loading.
pub struct UrlShape {
    pub marker: String,
    pub selector: String,
}

/// The index of the first shape whose marker occurs in `url`, if any.
pub open spec fn first_match(shapes: Seq<UrlShape>, url: Seq<char>) -> Option<int> {
    if exists|i: int| 0 <= i < shapes.len() && occurs_in(url, shapes[i].marker@) {
        Some(
            choose|i: int|
                0 <= i < shapes.len() && occurs_in(url, shapes[i].marker@) && forall|k: int|
                    0 <= k < i ==> !occurs_in(url, #[trigger] shapes[k].marker@),
        )
    } else {
        None
    }
}

/// The ordered table of known URL shapes; the first that fits a URL wins.
pub struct ShapeTable {
    shapes: Vec<UrlShape>,
}

impl View for ShapeTable {
    type V = Seq<UrlShape>;

    closed spec fn view(&self) -> Seq<UrlShape> {
        self.shapes@
    }
}

impl ShapeTable {
    pub fn new() -> (r: ShapeTable)
        ensures
            r@ == Seq::<UrlShape>::empty(),
    {
        ShapeTable { shapes: Vec::new() }
    }

    /// Adds a shape after those already known.
    pub fn add(&mut self, marker: String, selector: String)
        ensures
            final(self)@ == old(self)@.push(UrlShape { marker, selector }),
    {
        self.shapes.push(UrlShape { marker, selector });
    }

    pub fn len(&self) -> (r: usize)
        ensures
            r == self@.len(),
    {
        self.shapes.len()
    }

    pub fn get(&self, i: usize) -> (r: &UrlShape)
        requires
            i < self@.len(),
        ensures
            *r == self@[i as int],
    {
        &self.shapes[i]
    }

    /// The first shape that `url` fits, by index.
    pub fn classify(&self, url: &str) -> (r: Option<usize>)
        ensures
            r matches Some(i) ==> i < self@.len() && first_match(self@, url@) == Some(i as int),
            r is None ==> first_match(self@, url@) is None,
    {
        let mut i: usize = 0;
        while i < self.shapes.len()
            invariant
                forall|k: int| 0 <= k < i ==> !occurs_in(url@, #[trigger] self@[k].marker@),
            decreases self.shapes.len() - i,
        {
            if contains_text(url, self.shapes[i].marker.as_str()) {
                let ghost w = i as int;
                assert(0 <= w < self@.len() && occurs_in(url@, self@[w].marker@));
                proof {
                    let c = choose|c: int|
                        0 <= c < self@.len() && occurs_in(url@, self@[c].marker@) && forall|
                            k: int,
                        |
                            0 <= k < c ==> !occurs_in(url@, #[trigger] self@[k].marker@);
                    assert(0 <= c < self@.len() && occurs_in(url@, self@[c].marker@) && forall|
                        k: int,
                    |
                        0 <= k < c ==> !occurs_in(url@, #[trigger] self@[k].marker@));
                    if c < w {
                    } else if c > w {
                        assert(!occurs_in(url@, self@[w].marker@));
                    }
                }
                return Some(i);
            }
            i = i + 1;
        }
        None
    }
}

} // verus!
