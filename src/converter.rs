use vstd::prelude::*;

use crate::ast::{AstNode, AstRoot, Directive, Element};
use crate::directive::{find_dir, DirPattern};
use crate::ir::{ConvertInfo, IRNode, IRRoot};

verus! {

/// The name of the loop directive.
pub open spec fn is_loop(name: Seq<char>) -> bool {
    name == "for"@
}

/// Names of the conditional directives.
pub open spec fn is_conditional(name: Seq<char>) -> bool {
    name == "if"@ || name == "else-if"@ || name == "else"@
}

/// No name is both a loop and a conditional.
pub proof fn lemma_kinds_disjoint(name: Seq<char>)
    ensures
        !(is_loop(name) && is_conditional(name)),
{
    reveal_strlit("for");
    reveal_strlit("if");
    reveal_strlit("else-if");
    reveal_strlit("else");
    assert("for"@.len() == 3);
    assert("if"@.len() == 2);
    assert("else-if"@.len() == 7);
    assert("else"@.len() == 4);
}

/// Names of the directives that reshape control flow: conditionals and loops.
pub open spec fn is_structural(name: Seq<char>) -> bool {
    is_loop(name) || is_conditional(name)
}

/// How many loop directives `dirs` holds.
pub open spec fn loop_count(dirs: Seq<Directive>) -> nat
    decreases dirs.len(),
{
    if dirs.len() == 0 {
        0
    } else {
        (if is_loop(dirs[0].name@) { 1nat } else { 0nat }) + loop_count(dirs.drop_first())
    }
}

/// How many conditional directives `dirs` holds.
pub open spec fn conditional_count(dirs: Seq<Directive>) -> nat
    decreases dirs.len(),
{
    if dirs.len() == 0 {
        0
    } else {
        (if is_conditional(dirs[0].name@) { 1nat } else { 0nat }) + conditional_count(
            dirs.drop_first(),
        )
    }
}

/// The directives of `dirs` that are not structural, in declaration order.
pub open spec fn plain_dirs(dirs: Seq<Directive>) -> Seq<Directive>
    decreases dirs.len(),
{
    if dirs.len() == 0 {
        Seq::empty()
    } else if is_structural(dirs[0].name@) {
        plain_dirs(dirs.drop_first())
    } else {
        seq![dirs[0]] + plain_dirs(dirs.drop_first())
    }
}

/// `inner` is `e` with its structural directives taken off.
pub open spec fn stripped_of_structural(e: Element, inner: Element) -> bool {
    &&& inner.tag_name == e.tag_name
    &&& inner.namespace == e.namespace
    &&& inner.attributes == e.attributes
    &&& inner.children == e.children
    &&& inner.directives@ == plain_dirs(e.directives@)
}

/// Taking the directive at `k` off `dirs` lowers the count of its kind by one
/// and, when it is structural, leaves `plain_dirs` as it was.
pub proof fn lemma_remove_directive(dirs: Seq<Directive>, k: int)
    requires
        0 <= k < dirs.len(),
    ensures
        loop_count(dirs.remove(k)) + (if is_loop(dirs[k].name@) { 1nat } else { 0nat })
            == loop_count(dirs),
        conditional_count(dirs.remove(k)) + (if is_conditional(dirs[k].name@) {
            1nat
        } else {
            0nat
        }) == conditional_count(dirs),
        is_structural(dirs[k].name@) ==> plain_dirs(dirs.remove(k)) == plain_dirs(dirs),
    decreases dirs.len(),
{
    let rest = dirs.drop_first();
    if k == 0 {
        assert(dirs.remove(0) =~= rest);
    } else {
        lemma_remove_directive(rest, k - 1);
        assert(dirs.remove(k).drop_first() =~= rest.remove(k - 1));
        assert(dirs.remove(k)[0] == dirs[0]);
        assert(rest[k - 1] == dirs[k]);
    }
}

/// A list without loops has a loop count of zero, one without conditionals a
/// conditional count of zero, and one without either keeps all its directives.
pub proof fn lemma_absent_directives(dirs: Seq<Directive>)
    ensures
        (forall|j: int| 0 <= j < dirs.len() ==> !is_loop(#[trigger] dirs[j].name@)) ==> loop_count(
            dirs,
        ) == 0,
        (forall|j: int| 0 <= j < dirs.len() ==> !is_conditional(#[trigger] dirs[j].name@))
            ==> conditional_count(dirs) == 0,
        (forall|j: int| 0 <= j < dirs.len() ==> !is_structural(#[trigger] dirs[j].name@))
            ==> plain_dirs(dirs) == dirs,
    decreases dirs.len(),
{
    if dirs.len() > 0 {
        let rest = dirs.drop_first();
        lemma_absent_directives(rest);
        assert forall|j: int| 0 <= j < rest.len() implies rest[j] == dirs[j + 1] by {}
        assert(seq![dirs[0]] + rest =~= dirs);
    }
}

/// Puts `inner` under `conditionals` conditional nodes and those under `loops`
/// loop nodes: every loop outside every conditional.
pub open spec fn wrap_structural<T: ConvertInfo, C: NodeConverter<T>>(
    c: &C,
    loops: nat,
    conditionals: nat,
    inner: IRNode<T>,
) -> IRNode<T>
    decreases loops, conditionals,
{
    if loops > 0 {
        c.for_node(wrap_structural(c, (loops - 1) as nat, conditionals, inner))
    } else if conditionals > 0 {
        c.if_node(wrap_structural(c, 0, (conditionals - 1) as nat, inner))
    } else {
        inner
    }
}

/// `r` is what element `e` converts to: the IR of `e` without its structural
/// directives, inside one conditional node per conditional directive, inside
/// one loop node per loop directive, whatever order they were declared in.
pub open spec fn element_converts_to<T: ConvertInfo, C: NodeConverter<T>>(
    c: &C,
    e: Element,
    r: IRNode<T>,
) -> bool {
    &&& exists|inner: Element|
        #[trigger] stripped_of_structural(e, inner) && r == wrap_structural(
            c,
            loop_count(e.directives@),
            conditional_count(e.directives@),
            c.element_node(inner),
        )
    &&& loop_count(e.directives@) == 0 && conditional_count(e.directives@) == 0 ==> r
        == c.element_node(e)
}

/// `r` is what the template node `n` converts to.
pub open spec fn node_converts_to<T: ConvertInfo, C: NodeConverter<T>>(
    c: &C,
    n: AstNode,
    r: IRNode<T>,
) -> bool {
    match n {
        AstNode::Text(_) => r == c.text_node(),
        AstNode::Plain(e) => element_converts_to(c, e, r),
        AstNode::Component(e) => element_converts_to(c, e, r),
        AstNode::SlotOutlet(_) => r == c.slot_outlet_node(),
        AstNode::Comment(_) => r == c.comment_node(),
        AstNode::Interpolation(_) => r == c.interpolation_node(),
        AstNode::Template(e) => element_converts_to(c, e, r),
    }
}

/// Converts a template to an intermediate representation, which may differ
/// from one platform to another (DOM and SSR code generation, for instance).
pub trait Converter: Sized {
    type IR;

    fn convert_ir(&self, ast: AstRoot) -> Self::IR;
}

/// The conversions of single nodes that a platform supplies, each with the
/// node it returns named as a specification function.
pub trait NodeConverter<T: ConvertInfo> {
    /// The conditional node around `inner`.
    spec fn if_node(&self, inner: IRNode<T>) -> IRNode<T>;

    /// The loop node around `inner`.
    spec fn for_node(&self, inner: IRNode<T>) -> IRNode<T>;

    /// The node of an element whose structural directives are gone.
    spec fn element_node(&self, e: Element) -> IRNode<T>;

    spec fn text_node(&self) -> IRNode<T>;

    spec fn slot_outlet_node(&self) -> IRNode<T>;

    spec fn comment_node(&self) -> IRNode<T>;

    spec fn interpolation_node(&self) -> IRNode<T>;

    fn convert_directive(&self) -> IRNode<T>;

    fn convert_if(&self, n: IRNode<T>) -> (r: IRNode<T>)
        ensures
            r == self.if_node(n),
    ;

    fn convert_for(&self, n: IRNode<T>) -> (r: IRNode<T>)
        ensures
            r == self.for_node(n),
    ;

    fn convert_slot_outlet(&self) -> (r: IRNode<T>)
        ensures
            r == self.slot_outlet_node(),
    ;

    fn convert_element(&self, e: Element) -> (r: IRNode<T>)
        ensures
            r == self.element_node(e),
    ;

    fn convert_text(&self) -> (r: IRNode<T>)
        ensures
            r == self.text_node(),
    ;

    fn convert_interpolation(&self) -> (r: IRNode<T>)
        ensures
            r == self.interpolation_node(),
    ;

    fn convert_template(&self, e: Element) -> IRNode<T>;

    fn convert_comment(&self) -> (r: IRNode<T>)
        ensures
            r == self.comment_node(),
    ;
}

/// The conversion shared by the built-in platforms. An implementation says
/// what each kind of node becomes; the walk over the template, the routing of
/// each node and the unwrapping of structural directives are given here.
pub trait BuiltinConverter<T: ConvertInfo>: NodeConverter<T> + Sized {
    /// Converts every top-level node of `ast`, keeping their number and order.
    fn convert_ir(&self, ast: AstRoot) -> (r: IRRoot<T>)
        ensures
            r.body@.len() == ast.children@.len(),
            forall|i: int|
                0 <= i < ast.children@.len() ==> node_converts_to(
                    self,
                    #[trigger] ast.children@[i],
                    r.body@[i],
                ),
    {
        let mut body: Vec<IRNode<T>> = Vec::new();
        let mut children = ast.children;
        let ghost nodes = children@;
        let n = children.len();
        let mut i: usize = 0;
        while i < n
            invariant
                nodes == ast.children@,
                n == nodes.len(),
                i <= n,
                children@ == nodes.subrange(i as int, n as int),
                body@.len() == i,
                forall|j: int| 0 <= j < i ==> node_converts_to(self, #[trigger] nodes[j], body@[j]),
            decreases n - i,
        {
            let node = children.remove(0);
            assert(node == nodes[i as int]);
            let ir = self.dispatch_ast(node);
            body.push(ir);
            i += 1;
            assert(children@ =~= nodes.subrange(i as int, n as int));
        }
        IRRoot { body }
    }

    /// Routes one template node to the conversion of its kind.
    fn dispatch_ast(&self, n: AstNode) -> (r: IRNode<T>)
        ensures
            node_converts_to(self, n, r),
    {
        match n {
            AstNode::Text(..) => self.convert_text(),
            AstNode::Plain(e) => self.convert_structural_dir(e),
            AstNode::Component(e) => self.convert_structural_dir(e),
            AstNode::SlotOutlet(..) => self.convert_slot_outlet(),
            AstNode::Comment(..) => self.convert_comment(),
            AstNode::Interpolation(..) => self.convert_interpolation(),
            AstNode::Template(e) => self.convert_structural_dir(e),
        }
    }

    /// Takes the structural directives off `e`, and wraps the element's own
    /// node in a conditional node for each conditional and the result in a
    /// loop node for each loop.
    fn convert_structural_dir(&self, e: Element) -> (r: IRNode<T>)
        ensures
            element_converts_to(self, e, r),
    {
        extract_structural(self, e)
    }
}

/// Takes the structural directives off `e` one at a time, loops before
/// conditionals, converts what is left with `c`, and wraps the element's own
/// node in a loop or conditional node for each, so that every loop ends up
/// outside every conditional.
pub fn extract_structural<T: ConvertInfo, C: NodeConverter<T>>(c: &C, e: Element) -> (r: IRNode<T>)
    ensures
        element_converts_to(c, e, r),
    decreases e.directives@.len(),
{
    let mut e = e;
    let ghost e0 = e;
    proof {
        lemma_absent_directives(e0.directives@);
    }
    match find_dir(&mut e, "for") {
        Some(dir) => {
            let ghost k = dir.pos as int;
            proof {
                lemma_remove_directive(e0.directives@, k);
                lemma_kinds_disjoint(e0.directives@[k].name@);
            }
            let _ = dir.take();
            let ghost e1 = e;
            let inner = extract_structural(c, e);
            let ghost w = choose|w: Element|
                #[trigger] stripped_of_structural(e1, w) && inner == wrap_structural(
                    c,
                    loop_count(e1.directives@),
                    conditional_count(e1.directives@),
                    c.element_node(w),
                );
            assert(stripped_of_structural(e0, w));
            assert(loop_count(e0.directives@) == loop_count(e1.directives@) + 1);
            assert(wrap_structural(
                c,
                loop_count(e0.directives@),
                conditional_count(e0.directives@),
                c.element_node(w),
            ) == c.for_node(inner));
            c.convert_for(inner)
        },
        None => {
            let pattern: [&'static str; 3] = ["if", "else-if", "else"];
            assert(pattern@ == seq!["if", "else-if", "else"]);
            proof {
                lemma_conditional_pattern(pattern);
            }
            match find_dir(&mut e, pattern) {
                Some(dir) => {
                    let ghost k = dir.pos as int;
                    proof {
                        lemma_remove_directive(e0.directives@, k);
                    }
                    let _ = dir.take();
                    let ghost e1 = e;
                    let inner = extract_structural(c, e);
                    let ghost w = choose|w: Element|
                        #[trigger] stripped_of_structural(e1, w) && inner == wrap_structural(
                            c,
                            loop_count(e1.directives@),
                            conditional_count(e1.directives@),
                            c.element_node(w),
                        );
                    assert(stripped_of_structural(e0, w));
                    assert(loop_count(e0.directives@) == 0);
                    assert(conditional_count(e0.directives@) == conditional_count(e1.directives@)
                        + 1);
                    assert(wrap_structural(
                        c,
                        0,
                        conditional_count(e0.directives@),
                        c.element_node(w),
                    ) == c.if_node(inner));
                    c.convert_if(inner)
                },
                None => {
                    assert(loop_count(e0.directives@) == 0);
                    assert(conditional_count(e0.directives@) == 0);
                    assert(stripped_of_structural(e, e));
                    c.convert_element(e)
                },
            }
        },
    }
}

/// The search pattern of conditional directives accepts exactly their names.
proof fn lemma_conditional_pattern(pattern: [&'static str; 3])
    requires
        pattern@ == seq!["if", "else-if", "else"],
    ensures
        forall|n: Seq<char>| pattern.matches(n) <==> is_conditional(n),
{
    assert forall|n: Seq<char>| is_conditional(n) implies pattern.matches(n) by {
        if n == "if"@ {
            assert(pattern@[0]@ == n);
        } else if n == "else-if"@ {
            assert(pattern@[1]@ == n);
        } else {
            assert(pattern@[2]@ == n);
        }
    }
}

} // verus!

verus! {

/// The loop goes outside the conditional: an element with one loop directive
/// and one conditional directive, declared in either order, converts to a loop
/// node around a conditional node around the element's own node.
pub proof fn law_for_wraps_if<T: ConvertInfo, C: NodeConverter<T>>(
    c: &C,
    e: Element,
    r: IRNode<T>,
)
    requires
        element_converts_to(c, e, r),
        loop_count(e.directives@) == 1,
        conditional_count(e.directives@) == 1,
    ensures
        exists|inner: Element|
            #[trigger] stripped_of_structural(e, inner) && r == c.for_node(
                c.if_node(c.element_node(inner)),
            ),
{
    let inner = choose|inner: Element|
        #[trigger] stripped_of_structural(e, inner) && r == wrap_structural(
            c,
            1,
            1,
            c.element_node(inner),
        );
    let z = c.element_node(inner);
    assert(wrap_structural(c, 0, 0, z) == z);
    assert(wrap_structural(c, 0, 1, z) == c.if_node(z));
    assert(wrap_structural(c, 1, 1, z) == c.for_node(c.if_node(z)));
}

/// Searching an element that has no structural directive changes nothing:
/// it converts to exactly the node that the element conversion gives it.
pub proof fn law_plain_element_unchanged<T: ConvertInfo, C: NodeConverter<T>>(
    c: &C,
    e: Element,
    r: IRNode<T>,
)
    requires
        element_converts_to(c, e, r),
        forall|j: int|
            0 <= j < e.directives@.len() ==> !is_structural(#[trigger] e.directives@[j].name@),
    ensures
        r == c.element_node(e),
{
    lemma_absent_directives(e.directives@);
}

} // verus!
