use vstd::prelude::*;

use crate::ast::{Directive, Element, ErrorHandler};
use crate::ir::JsExpression;

verus! {

/// Tells whether two strings hold the same characters.
pub fn same_name(a: &str, b: &str) -> (r: bool)
    ensures
        r == (a@ == b@),
{
    let n = a.unicode_len();
    if n != b.unicode_len() {
        return false;
    }
    let mut i: usize = 0;
    while i < n
        invariant
            n == a@.len(),
            n == b@.len(),
            i <= n,
            forall|j: int| 0 <= j < i ==> a@[j] == b@[j],
        decreases n - i,
    {
        if a.get_char(i) != b.get_char(i) {
            return false;
        }
        i += 1;
    }
    assert(a@ =~= b@);
    true
}

/// A set of directive names to look for.
pub trait DirPattern {
    /// The names this pattern accepts.
    spec fn matches(&self, name: Seq<char>) -> bool;

    fn is_match(&self, name: &str) -> (r: bool)
        ensures
            r == self.matches(name@),
    ;
}

impl DirPattern for &str {
    open spec fn matches(&self, name: Seq<char>) -> bool {
        name == (*self)@
    }

    fn is_match(&self, name: &str) -> (r: bool) {
        same_name(name, *self)
    }
}

impl<const N: usize> DirPattern for [&'static str; N] {
    open spec fn matches(&self, name: Seq<char>) -> bool {
        exists|i: int| 0 <= i < N && #[trigger] self@[i]@ == name
    }

    fn is_match(&self, name: &str) -> (r: bool) {
        let names = self.as_slice();
        let mut i: usize = 0;
        while i < names.len()
            invariant
                names@ == self@,
                self@.len() == N,
                i <= names@.len(),
                forall|j: int| 0 <= j < i ==> #[trigger] self@[j]@ != name@,
            decreases names@.len() - i,
        {
            if same_name(names[i], name) {
                return true;
            }
            i += 1;
        }
        false
    }
}

/// The first directive of an element that matched a pattern, still in place.
// The fields are public because the contracts of `find_dir` and `take` relate
// the element to the final value of `dirs`, which a contract can only reach
// through the field itself.
pub struct FoundDir<'s> {
    /// The directive list of the element that was searched.
    pub dirs: &'s mut Vec<Directive>,
    /// Where the found directive stands in it.
    pub pos: usize,
}

impl<'s> FoundDir<'s> {
    /// Removes the found directive from its element and hands it over.
    pub fn take(self) -> (r: Directive)
        requires
            self.pos < self.dirs@.len(),
        ensures
            r == old(self.dirs)@[self.pos as int],
            final(self.dirs)@ == old(self.dirs)@.remove(self.pos as int),
    {
        self.dirs.remove(self.pos)
    }

    /// Looks at the found directive, leaving it in place.
    pub fn as_ref(&self) -> (r: &Directive)
        requires
            self.pos < self.dirs@.len(),
        ensures
            *r == old(self.dirs)@[self.pos as int],
    {
        &self.dirs[self.pos]
    }
}

} // verus!

verus! {

/// Where the first directive whose name `accepts` holds of stands in `dirs`,
/// or the length of `dirs` when there is none.
pub open spec fn first_index(accepts: spec_fn(Seq<char>) -> bool, dirs: Seq<Directive>) -> int
    decreases dirs.len(),
{
    if dirs.len() == 0 {
        0
    } else if accepts(dirs[0].name@) {
        0
    } else {
        1 + first_index(accepts, dirs.drop_first())
    }
}

/// `first_index` lies between zero and the length of the list.
pub proof fn lemma_first_index_bounds(accepts: spec_fn(Seq<char>) -> bool, dirs: Seq<Directive>)
    ensures
        0 <= first_index(accepts, dirs) <= dirs.len(),
    decreases dirs.len(),
{
    if dirs.len() > 0 {
        lemma_first_index_bounds(accepts, dirs.drop_first());
    }
}

/// Where the first directive that `pattern` accepts stands in `dirs`,
/// or the length of `dirs` when there is none.
pub open spec fn first_match<P: DirPattern>(pattern: P, dirs: Seq<Directive>) -> int {
    first_index(|n: Seq<char>| pattern.matches(n), dirs)
}

/// `first_index` is the one index before which no name is accepted and at
/// which one is, or the end of the list.
pub proof fn lemma_first_index(accepts: spec_fn(Seq<char>) -> bool, dirs: Seq<Directive>, k: int)
    requires
        0 <= k <= dirs.len(),
        forall|j: int| 0 <= j < k ==> !accepts(#[trigger] dirs[j].name@),
        k == dirs.len() || accepts(dirs[k].name@),
    ensures
        first_index(accepts, dirs) == k,
    decreases dirs.len(),
{
    if dirs.len() > 0 && k > 0 {
        let rest = dirs.drop_first();
        assert forall|j: int| 0 <= j < k - 1 implies !accepts(#[trigger] rest[j].name@) by {
            assert(rest[j] == dirs[j + 1]);
        }
        if k < dirs.len() {
            assert(rest[k - 1] == dirs[k]);
        }
        lemma_first_index(accepts, rest, k - 1);
        assert(!accepts(dirs[0].name@));
    }
}

/// Searches the directives of `e` for the first one that `pattern` accepts.
/// Nothing changes until the returned handle is taken.
pub fn find_dir<'s, P: DirPattern>(e: &'s mut Element, pattern: P) -> (r: Option<FoundDir<'s>>)
    ensures
        r is Some <==> first_match(pattern, old(e).directives@) < old(e).directives@.len(),
        r is None <==> forall|j: int|
            0 <= j < old(e).directives@.len() ==> !pattern.matches(
                #[trigger] old(e).directives@[j].name@,
            ),
        r is None ==> *final(e) == *old(e),
        r matches Some(f) ==> {
            &&& f.pos == first_match(pattern, old(e).directives@)
            &&& pattern.matches(old(e).directives@[f.pos as int].name@)
            &&& forall|j: int| 0 <= j < f.pos ==> !pattern.matches(#[trigger] old(e).directives@[j].name@)
            &&& *f.dirs == old(e).directives
            &&& *final(e) == (Element { directives: *final(f.dirs), ..*old(e) })
        },
{
    let n = e.directives.len();
    let mut i: usize = 0;
    while i < n
        invariant
            n == e.directives@.len(),
            *e == *old(e),
            i <= n,
            forall|j: int| 0 <= j < i ==> !pattern.matches(#[trigger] e.directives@[j].name@),
        decreases n - i,
    {
        if pattern.is_match(e.directives[i].name.as_str()) {
            proof {
                lemma_first_index(|n: Seq<char>| pattern.matches(n), e.directives@, i as int);
            }
            return Some(FoundDir { dirs: &mut e.directives, pos: i });
        }
        i += 1;
    }
    proof {
        lemma_first_index(|n: Seq<char>| pattern.matches(n), e.directives@, n as int);
    }
    None
}

} // verus!

verus! {

/// A directive that `accepts` holds of makes `first_index` stop at or before
/// it, on a directive that `accepts` holds of.
pub proof fn lemma_first_index_found(accepts: spec_fn(Seq<char>) -> bool, dirs: Seq<Directive>, i: int)
    requires
        0 <= i < dirs.len(),
        accepts(dirs[i].name@),
    ensures
        0 <= first_index(accepts, dirs) <= i,
        accepts(dirs[first_index(accepts, dirs)].name@),
    decreases dirs.len(),
{
    if !accepts(dirs[0].name@) {
        let rest = dirs.drop_first();
        assert(rest[i - 1] == dirs[i]);
        lemma_first_index_found(accepts, rest, i - 1);
        assert(rest[first_index(accepts, rest)] == dirs[first_index(accepts, dirs)]);
    }
}

/// Finding a directive and taking it: when some directive of `dirs` matches
/// `pattern`, the search stops on a matching one no later than it, and taking
/// that one leaves every other directive in the relative order it had.
pub proof fn law_take_removes_match<P: DirPattern>(pattern: P, dirs: Seq<Directive>, i: int)
    requires
        0 <= i < dirs.len(),
        pattern.matches(dirs[i].name@),
    ensures
        ({
            let k = first_match(pattern, dirs);
            let rest = dirs.remove(k);
            &&& 0 <= k <= i
            &&& pattern.matches(dirs[k].name@)
            &&& rest.len() == dirs.len() - 1
            &&& forall|j: int| 0 <= j < k ==> #[trigger] rest[j] == dirs[j]
            &&& forall|j: int| k <= j < rest.len() ==> #[trigger] rest[j] == dirs[j + 1]
        }),
{
    lemma_first_index_found(|n: Seq<char>| pattern.matches(n), dirs, i);
}

/// What converting one directive contributes to its element's props.
/// `Dropped` means it contributes nothing to the generated code.
pub enum DirectiveConvertResult<'a> {
    Converted { value: JsExpression<'a>, need_runtime: bool },
    Dropped,
}

/// The conversion of directives that need no code: drops the directive.
pub fn no_op_directive_convert<'a, H: ErrorHandler + ?Sized>(
    _dir: Directive,
    _e: &Element,
    _eh: &H,
) -> (r: DirectiveConvertResult<'a>)
    ensures
        r is Dropped,
{
    DirectiveConvertResult::Dropped
}

/// A registered conversion of one kind of directive. It may report problems
/// to the error handler and still return a result.
pub trait DirectiveConvert {
    /// `r` is a result this converter gives for `dir` on element `e`.
    spec fn converted<'a>(&self, dir: Directive, e: Element, r: DirectiveConvertResult<'a>) -> bool;

    fn convert<'a, H: ErrorHandler + ?Sized>(
        &self,
        dir: Directive,
        e: &Element,
        eh: &H,
    ) -> (r: DirectiveConvertResult<'a>)
        ensures
            self.converted(dir, *e, r),
    ;
}

/// The converter of directives that need no code.
pub struct NoOpConverter;

impl DirectiveConvert for NoOpConverter {
    open spec fn converted<'a>(
        &self,
        dir: Directive,
        e: Element,
        r: DirectiveConvertResult<'a>,
    ) -> bool {
        r is Dropped
    }

    fn convert<'a, H: ErrorHandler + ?Sized>(
        &self,
        dir: Directive,
        e: &Element,
        eh: &H,
    ) -> (r: DirectiveConvertResult<'a>) {
        no_op_directive_convert(dir, e, eh)
    }
}

/// Converts `dir` with the first converter registered under its name, or
/// drops it when no converter is registered under that name.
pub fn convert_directive<'a, C: DirectiveConvert, H: ErrorHandler + ?Sized>(
    converters: &Vec<(&'static str, C)>,
    dir: Directive,
    e: &Element,
    eh: &H,
) -> (r: DirectiveConvertResult<'a>)
    ensures
        (forall|j: int| 0 <= j < converters@.len() ==> (#[trigger] converters@[j]).0@ != dir.name@)
            ==> r is Dropped,
        forall|k: int|
            0 <= k < converters@.len() && (#[trigger] converters@[k]).0@ == dir.name@ && (forall|
                j: int,
            |
                0 <= j < k ==> (#[trigger] converters@[j]).0@ != dir.name@) ==> converters@[k].1.converted(
                dir,
                *e,
                r,
            ),
{
    let n = converters.len();
    let mut i: usize = 0;
    while i < n
        invariant
            n == converters@.len(),
            i <= n,
            forall|j: int| 0 <= j < i ==> (#[trigger] converters@[j]).0@ != dir.name@,
        decreases n - i,
    {
        if same_name(converters[i].0, dir.name.as_str()) {
            return converters[i].1.convert(dir, e, eh);
        }
        i += 1;
    }
    no_op_directive_convert(dir, e, eh)
}

} // verus!
