//! Planning of the imports of OPML subscription lists and Netscape bookmark
//! files: the outline trees are walked with an explicit stack, and each node
//! becomes a step that the repository then carries out against the database.

use vstd::prelude::*;

verus! {

/// A node of an OPML document.
#[derive(Debug)]
pub struct Outline {
    pub text: String,
    pub title: Option<String>,
    pub xml_url: Option<String>,
    pub html_url: Option<String>,
    pub outline: Option<Vec<Outline>>,
}

/// A node of a Netscape bookmark file.
#[derive(Debug)]
pub struct Item {
    pub title: String,
    pub href: Option<String>,
    pub item: Option<Vec<Item>>,
}

/// One step of an import. The tags that `Tag` steps find or create are numbered
/// from 0 in the order of the steps; `tag` in the other steps names the tag to
/// link the new row to by that number.
#[derive(Debug, PartialEq, Eq)]
pub enum ImportStep {
    /// Find the user's tag with this title, or create it.
    Tag { title: String },
    /// Store the feed, subscribe the user to it, and link it to a tag.
    Feed { link: String, title: String, xml_url: Option<String>, tag: Option<usize> },
    /// Store the bookmark for the user and link it to a tag.
    Bookmark { link: String, title: String, tag: Option<usize> },
}

/// An import step with its texts as sequences of characters.
pub enum StepView {
    Tag(Seq<char>),
    Feed(Seq<char>, Seq<char>, Option<Seq<char>>, Option<nat>),
    Bookmark(Seq<char>, Seq<char>, Option<nat>),
}

/// An optional tag number as a natural number.
pub open spec fn opt_nat(t: Option<usize>) -> Option<nat> {
    match t {
        Some(n) => Some(n as nat),
        None => None,
    }
}

/// The text of an optional string.
pub open spec fn opt_text(s: Option<String>) -> Option<Seq<char>> {
    match s {
        Some(t) => Some(t@),
        None => None,
    }
}

impl View for ImportStep {
    type V = StepView;

    open spec fn view(&self) -> StepView {
        match self {
            ImportStep::Tag { title } => StepView::Tag(title@),
            ImportStep::Feed { link, title, xml_url, tag } => StepView::Feed(
                link@,
                title@,
                opt_text(*xml_url),
                opt_nat(*tag),
            ),
            ImportStep::Bookmark { link, title, tag } => StepView::Bookmark(
                link@,
                title@,
                opt_nat(*tag),
            ),
        }
    }
}

/// The views of a sequence of steps.
pub open spec fn steps_view(steps: Seq<ImportStep>) -> Seq<StepView> {
    steps.map_values(|s: ImportStep| s@)
}

/// How many of the steps find or create a tag.
pub open spec fn tag_count(steps: Seq<StepView>) -> nat
    decreases steps.len(),
{
    if steps.len() == 0 {
        0
    } else {
        tag_count(steps.drop_last()) + if steps.last() is Tag {
            1nat
        } else {
            0nat
        }
    }
}

proof fn lemma_tag_count_append(a: Seq<StepView>, b: Seq<StepView>)
    ensures
        tag_count(a + b) == tag_count(a) + tag_count(b),
    decreases b.len(),
{
    if b.len() > 0 {
        lemma_tag_count_append(a, b.drop_last());
        assert((a + b).drop_last() =~= a + b.drop_last());
    } else {
        assert(a + b =~= a);
    }
}

proof fn lemma_tag_count_one(s: StepView)
    ensures
        tag_count(seq![s]) == if s is Tag {
            1nat
        } else {
            0nat
        },
{
    assert(seq![s].drop_last() =~= Seq::<StepView>::empty());
    assert(seq![s].last() == s);
    assert(tag_count(Seq::<StepView>::empty()) == 0);
}

proof fn lemma_tag_count_len(a: Seq<StepView>)
    ensures
        tag_count(a) <= a.len(),
    decreases a.len(),
{
    if a.len() > 0 {
        lemma_tag_count_len(a.drop_last());
    }
}

/// The storage backend an import is planned for; the two walk the trees
/// differently.
#[derive(Clone, Copy, Debug, PartialEq, Eq, Structural)]
pub enum Backend {
    /// A node with a child list, even an empty one, is a folder; the children of
    /// a folder are taken first to last; Netscape folders are titled with the
    /// path of their parent folder's title, a slash, and their own title; OPML
    /// folders are titled like feeds.
    D1,
    /// A node with at least one child is a folder; the children of a folder are
    /// taken last to first; folders are titled with the node's own text (OPML) or
    /// title (Netscape).
    Libsql,
}

/// The elements of `v` in the opposite order.
pub fn reversed<T>(v: Vec<T>) -> (r: Vec<T>)
    ensures
        r@ == v@.reverse(),
{
    let ghost orig = v@;
    let mut v = v;
    let mut r: Vec<T> = Vec::new();
    while v.len() > 0
        invariant
            v@.len() <= orig.len(),
            v@ == orig.subrange(0, v@.len() as int),
            r@ == orig.subrange(v@.len() as int, orig.len() as int).reverse(),
        decreases v.len(),
    {
        let x = v.pop().unwrap();
        proof {
            let k = v@.len() as int;
            assert(orig.subrange(k, orig.len() as int).reverse() =~= orig.subrange(
                k + 1,
                orig.len() as int,
            ).reverse().push(orig[k]));
        }
        r.push(x);
        proof {
            assert(v@ =~= orig.subrange(0, v@.len() as int));
        }
    }
    assert(orig.subrange(0, orig.len() as int) =~= orig);
    r
}

/// Pairs each node with `parent`, the last node first: pushed in this order on a
/// stack, the first node ends on top.
pub open spec fn pushed<P, N>(cs: Seq<N>, parent: P) -> Seq<(P, N)> {
    cs.reverse().map_values(|c: N| (parent, c))
}

/// Pushes the nodes on the stack with `parent` so that the first is on top.
fn push_nodes<P: Copy, N>(stack: &mut Vec<(P, N)>, cs: Vec<N>, parent: P)
    ensures
        final(stack)@ == old(stack)@ + pushed(cs@, parent),
{
    let ghost orig = cs@;
    let ghost start = stack@;
    let mut cs = cs;
    while cs.len() > 0
        invariant
            cs@.len() <= orig.len(),
            cs@ == orig.subrange(0, cs@.len() as int),
            stack@ == start + pushed(orig.subrange(cs@.len() as int, orig.len() as int), parent),
        decreases cs.len(),
    {
        let c = cs.pop().unwrap();
        proof {
            let k = cs@.len() as int;
            assert(pushed(orig.subrange(k, orig.len() as int), parent) =~= pushed(
                orig.subrange(k + 1, orig.len() as int),
                parent,
            ).push((parent, orig[k])));
        }
        stack.push((parent, c));
        proof {
            assert(cs@ =~= orig.subrange(0, cs@.len() as int));
        }
    }
    assert(orig.subrange(0, orig.len() as int) =~= orig);
}

/// Takes `title`, or else `text`.
fn title_or_text(title: Option<String>, text: String) -> (r: String)
    ensures
        r@ == (match title {
            Some(t) => t@,
            None => text@,
        }),
{
    match title {
        Some(t) => t,
        None => text,
    }
}

// ---------------------------------------------------------------------------
// OPML.

/// The title of an outline: its `title`, or else its `text`.
pub open spec fn outline_title(o: Outline) -> Seq<char> {
    match o.title {
        Some(t) => t@,
        None => o.text@,
    }
}

/// Whether the backend treats a child list as a folder's.
pub open spec fn is_folder_list<N>(backend: Backend, cs: Seq<N>) -> bool {
    match backend {
        Backend::D1 => true,
        Backend::Libsql => cs.len() > 0,
    }
}

/// The title of the tag of an OPML folder.
pub open spec fn opml_folder_title(backend: Backend, o: Outline) -> Seq<char> {
    match backend {
        Backend::D1 => outline_title(o),
        Backend::Libsql => o.text@,
    }
}

/// The steps for an outline and everything under it, where `parent` is the
/// number of the tag of the enclosing folder and `base` the number of tags that
/// earlier steps found.
pub open spec fn opml_outline_steps(backend: Backend, o: Outline, parent: Option<nat>, base: nat) -> Seq<
    StepView,
>
    decreases o,
{
    match o.outline {
        Some(cs) if is_folder_list(backend, cs@) => seq![
            StepView::Tag(opml_folder_title(backend, o)),
        ] + match backend {
            Backend::D1 => opml_outlines_steps(backend, cs@, Some(base), base + 1),
            Backend::Libsql => opml_outlines_steps_rev(backend, cs@, Some(base), base + 1),
        },
        _ => match o.html_url {
            Some(link) => seq![
                StepView::Feed(link@, outline_title(o), opt_text(o.xml_url), parent),
            ],
            None => seq![],
        },
    }
}

/// The steps for sibling outlines taken first to last.
pub open spec fn opml_outlines_steps(backend: Backend, cs: Seq<Outline>, parent: Option<nat>, base: nat) -> Seq<
    StepView,
>
    decreases cs,
{
    if cs.len() == 0 {
        seq![]
    } else {
        let first = opml_outline_steps(backend, cs[0], parent, base);
        first + opml_outlines_steps(backend, cs.drop_first(), parent, base + tag_count(first))
    }
}

/// The steps for sibling outlines taken last to first.
pub open spec fn opml_outlines_steps_rev(
    backend: Backend,
    cs: Seq<Outline>,
    parent: Option<nat>,
    base: nat,
) -> Seq<StepView>
    decreases cs,
{
    if cs.len() == 0 {
        seq![]
    } else {
        let first = opml_outline_steps(backend, cs.last(), parent, base);
        first + opml_outlines_steps_rev(backend, cs.drop_last(), parent, base + tag_count(first))
    }
}

/// The steps of an OPML import: the top-level outlines last first.
pub open spec fn opml_import_steps(backend: Backend, outlines: Seq<Outline>) -> Seq<StepView> {
    opml_outlines_steps_rev(backend, outlines, None, 0)
}

proof fn lemma_opml_rev(backend: Backend, cs: Seq<Outline>, parent: Option<nat>, base: nat)
    ensures
        opml_outlines_steps_rev(backend, cs, parent, base) == opml_outlines_steps(
            backend,
            cs.reverse(),
            parent,
            base,
        ),
    decreases cs.len(),
{
    if cs.len() > 0 {
        let first = opml_outline_steps(backend, cs.last(), parent, base);
        lemma_opml_rev(backend, cs.drop_last(), parent, base + tag_count(first));
        assert(cs.reverse()[0] == cs.last());
        assert(cs.reverse().drop_first() =~= cs.drop_last().reverse());
    } else {
        assert(cs.reverse() =~= cs);
    }
}

/// The steps that a stack of pending outlines still gives, the top first.
spec fn opml_stack_steps(backend: Backend, stack: Seq<(Option<usize>, Outline)>, base: nat) -> Seq<
    StepView,
>
    decreases stack.len(),
{
    if stack.len() == 0 {
        seq![]
    } else {
        let first = opml_outline_steps(backend, stack.last().1, opt_nat(stack.last().0), base);
        first + opml_stack_steps(backend, stack.drop_last(), base + tag_count(first))
    }
}

proof fn lemma_opml_stack_push(
    backend: Backend,
    rest: Seq<(Option<usize>, Outline)>,
    cs: Seq<Outline>,
    parent: Option<usize>,
    base: nat,
)
    ensures
        opml_stack_steps(backend, rest + pushed(cs, parent), base) == opml_outlines_steps(
            backend,
            cs,
            opt_nat(parent),
            base,
        ) + opml_stack_steps(
            backend,
            rest,
            base + tag_count(opml_outlines_steps(backend, cs, opt_nat(parent), base)),
        ),
    decreases cs.len(),
{
    if cs.len() == 0 {
        assert(rest + pushed(cs, parent) =~= rest);
        assert(opml_outlines_steps(backend, cs, opt_nat(parent), base) =~= seq![]);
    } else {
        let tail = cs.drop_first();
        let first = opml_outline_steps(backend, cs[0], opt_nat(parent), base);
        let s = rest + pushed(cs, parent);
        assert(s.last() == (parent, cs[0]));
        assert(s.drop_last() =~= rest + pushed(tail, parent));
        lemma_opml_stack_push(backend, rest, tail, parent, base + tag_count(first));
        let tail_steps = opml_outlines_steps(backend, tail, opt_nat(parent), base + tag_count(first));
        lemma_tag_count_append(first, tail_steps);
        assert(opml_outlines_steps(backend, cs, opt_nat(parent), base) == first + tail_steps);
        assert(first + (tail_steps + opml_stack_steps(
            backend,
            rest,
            base + tag_count(first) + tag_count(tail_steps),
        )) =~= (first + tail_steps) + opml_stack_steps(
            backend,
            rest,
            base + tag_count(first) + tag_count(tail_steps),
        ));
    }
}

/// Takes the top of the stack and appends its step, if it has one.
fn opml_step(
    backend: Backend,
    stack: &mut Vec<(Option<usize>, Outline)>,
    steps: &mut Vec<ImportStep>,
    ntags: &mut usize,
)
    requires
        old(stack)@.len() > 0,
        *old(ntags) == tag_count(steps_view(old(steps)@)),
    ensures
        *final(ntags) == tag_count(steps_view(final(steps)@)),
        steps_view(final(steps)@) + opml_stack_steps(backend, final(stack)@, *final(ntags) as nat)
            == steps_view(old(steps)@) + opml_stack_steps(backend, old(stack)@, *old(ntags) as nat),
        final(steps)@.len() > old(steps)@.len() || (final(steps)@.len() == old(steps)@.len()
            && final(stack)@.len() < old(stack)@.len()),
{
    let ghost before = stack@;
    let ghost done = steps_view(steps@);
    let ghost base = *ntags as nat;
    let (parent, o) = stack.pop().unwrap();
    let ghost rest = stack@;
    let ghost here = opml_outline_steps(backend, o, opt_nat(parent), base);
    let ghost later = opml_stack_steps(backend, rest, base + tag_count(here));
    let ghost node = o;
    assert(opml_stack_steps(backend, before, base) == here + later);
    let Outline { text, title, xml_url, html_url, outline } = o;
    let folder_children = match outline {
        Some(children) => {
            let folder = match backend {
                Backend::D1 => true,
                Backend::Libsql => children.len() > 0,
            };
            if folder {
                Some(children)
            } else {
                None
            }
        },
        None => None,
    };
    match folder_children {
        Some(children) => {
            let tag_title = match backend {
                Backend::D1 => title_or_text(title, text),
                Backend::Libsql => text,
            };
            assert(tag_title@ == opml_folder_title(backend, node));
            let ordered = match backend {
                Backend::D1 => children,
                Backend::Libsql => reversed(children),
            };
            let ghost inner = opml_outlines_steps(backend, ordered@, Some(base), base + 1);
            proof {
                if backend == Backend::Libsql {
                    lemma_opml_rev(backend, node.outline->Some_0@, Some(base), base + 1);
                }
                assert(here == seq![StepView::Tag(tag_title@)] + inner);
                lemma_tag_count_len(done);
                lemma_opml_stack_push(backend, rest, ordered@, Some(*ntags), base + 1);
                lemma_tag_count_one(StepView::Tag(tag_title@));
                lemma_tag_count_append(done, seq![StepView::Tag(tag_title@)]);
                lemma_tag_count_append(seq![StepView::Tag(tag_title@)], inner);
            }
            steps.push(ImportStep::Tag { title: tag_title });
            assert(steps_view(steps@) =~= done + seq![StepView::Tag(tag_title@)]);
            let n = steps.len();
            assert(*ntags + 1 <= n) by {
                lemma_tag_count_len(steps_view(steps@));
            }
            let tag = *ntags;
            *ntags = *ntags + 1;
            push_nodes(stack, ordered, Some(tag));
            assert(steps_view(steps@) + opml_stack_steps(backend, stack@, *ntags as nat) =~= done + (
            here + later));
        },
        None => {
            let title = title_or_text(title, text);
            match html_url {
                Some(link) => {
                    steps.push(ImportStep::Feed { link, title, xml_url, tag: parent });
                    proof {
                        assert(steps_view(steps@) =~= done + here);
                        lemma_tag_count_append(done, here);
                        lemma_tag_count_one(here[0]);
                        assert(steps_view(steps@) + later =~= done + (here + later));
                    }
                },
                None => {
                    assert(here =~= seq![]);
                    assert(done + later =~= done + (here + later));
                },
            }
        },
    }
}

/// Plans the import of an OPML document: the top-level outlines are stacked
/// and taken from the top (the last first); a folder finds or creates the tag
/// that the backend titles it with and stacks its children with that tag; an
/// outline with a site link stores the feed, titled with its `title` or else its
/// `text`, and links it to the tag of its folder; other outlines give no step.
pub fn plan_opml_import(outlines: Vec<Outline>, backend: Backend) -> (steps: Vec<ImportStep>)
    ensures
        steps_view(steps@) == opml_import_steps(backend, outlines@),
{
    let ghost total = opml_import_steps(backend, outlines@);
    let mut stack: Vec<(Option<usize>, Outline)> = Vec::new();
    let ghost orig = outlines@;
    let ghost rev = outlines@.reverse();
    push_nodes(&mut stack, reversed(outlines), None);
    proof {
        lemma_opml_rev(backend, orig, None, 0);
        lemma_opml_stack_push(backend, seq![], rev, None, 0);
        assert(seq![] + pushed(rev, None::<usize>) =~= pushed(rev, None::<usize>));
        assert(opml_stack_steps(backend, seq![], tag_count(opml_outlines_steps(backend, rev, None, 0)))
            =~= seq![]);
        assert(opml_outlines_steps(backend, rev, None, 0) + seq![] =~= opml_outlines_steps(
            backend,
            rev,
            None,
            0,
        ));
    }
    let mut steps: Vec<ImportStep> = Vec::new();
    let mut ntags: usize = 0;
    assert(steps_view(steps@) =~= seq![]);
    while stack.len() > 0
        invariant
            ntags == tag_count(steps_view(steps@)),
            steps_view(steps@) + opml_stack_steps(backend, stack@, ntags as nat) == total,
        decreases total.len() - steps@.len(), stack@.len(),
    {
        opml_step(backend, &mut stack, &mut steps, &mut ntags);
    }
    assert(steps_view(steps@) =~= total);
    steps
}

// ---------------------------------------------------------------------------
// Netscape bookmark files.

/// The number and title of an enclosing folder's tag.
pub open spec fn parent_view(p: Option<(usize, String)>) -> Option<(nat, Seq<char>)> {
    match p {
        Some((k, t)) => Some((k as nat, t@)),
        None => None,
    }
}

/// The number of an enclosing folder's tag.
pub open spec fn parent_tag(p: Option<(nat, Seq<char>)>) -> Option<nat> {
    match p {
        Some((k, _)) => Some(k),
        None => None,
    }
}

/// The title of the tag of a Netscape folder.
pub open spec fn netscape_folder_title(
    backend: Backend,
    item: Item,
    parent: Option<(nat, Seq<char>)>,
) -> Seq<char> {
    match backend {
        Backend::D1 => match parent {
            Some((_, t)) => t + "/"@ + item.title@,
            None => item.title@,
        },
        Backend::Libsql => item.title@,
    }
}

/// The steps for an item and everything under it, where `parent` is the number
/// and title of the tag of the enclosing folder and `base` the number of tags
/// that earlier steps found.
pub open spec fn netscape_item_steps(
    backend: Backend,
    item: Item,
    parent: Option<(nat, Seq<char>)>,
    base: nat,
) -> Seq<StepView>
    decreases item,
{
    match item.item {
        Some(cs) if is_folder_list(backend, cs@) => {
            let t = netscape_folder_title(backend, item, parent);
            seq![StepView::Tag(t)] + match backend {
                Backend::D1 => netscape_items_steps(backend, cs@, Some((base, t)), base + 1),
                Backend::Libsql => netscape_items_steps_rev(backend, cs@, Some((base, t)), base + 1),
            }
        },
        _ => match item.href {
            Some(link) => seq![StepView::Bookmark(link@, item.title@, parent_tag(parent))],
            None => seq![],
        },
    }
}

/// The steps for sibling items taken first to last.
pub open spec fn netscape_items_steps(
    backend: Backend,
    cs: Seq<Item>,
    parent: Option<(nat, Seq<char>)>,
    base: nat,
) -> Seq<StepView>
    decreases cs,
{
    if cs.len() == 0 {
        seq![]
    } else {
        let first = netscape_item_steps(backend, cs[0], parent, base);
        first + netscape_items_steps(backend, cs.drop_first(), parent, base + tag_count(first))
    }
}

/// The steps for sibling items taken last to first.
pub open spec fn netscape_items_steps_rev(
    backend: Backend,
    cs: Seq<Item>,
    parent: Option<(nat, Seq<char>)>,
    base: nat,
) -> Seq<StepView>
    decreases cs,
{
    if cs.len() == 0 {
        seq![]
    } else {
        let first = netscape_item_steps(backend, cs.last(), parent, base);
        first + netscape_items_steps_rev(backend, cs.drop_last(), parent, base + tag_count(first))
    }
}

/// The steps of a Netscape import: the top-level items last first.
pub open spec fn netscape_import_steps(backend: Backend, items: Seq<Item>) -> Seq<StepView> {
    netscape_items_steps_rev(backend, items, None, 0)
}

proof fn lemma_netscape_rev(
    backend: Backend,
    cs: Seq<Item>,
    parent: Option<(nat, Seq<char>)>,
    base: nat,
)
    ensures
        netscape_items_steps_rev(backend, cs, parent, base) == netscape_items_steps(
            backend,
            cs.reverse(),
            parent,
            base,
        ),
    decreases cs.len(),
{
    if cs.len() > 0 {
        let first = netscape_item_steps(backend, cs.last(), parent, base);
        lemma_netscape_rev(backend, cs.drop_last(), parent, base + tag_count(first));
        assert(cs.reverse()[0] == cs.last());
        assert(cs.reverse().drop_first() =~= cs.drop_last().reverse());
    } else {
        assert(cs.reverse() =~= cs);
    }
}

/// The steps that a stack of pending items still gives, the top first.
spec fn netscape_stack_steps(
    backend: Backend,
    stack: Seq<(Option<(usize, String)>, Item)>,
    base: nat,
) -> Seq<StepView>
    decreases stack.len(),
{
    if stack.len() == 0 {
        seq![]
    } else {
        let first = netscape_item_steps(
            backend,
            stack.last().1,
            parent_view(stack.last().0),
            base,
        );
        first + netscape_stack_steps(backend, stack.drop_last(), base + tag_count(first))
    }
}

proof fn lemma_netscape_stack_push(
    backend: Backend,
    rest: Seq<(Option<(usize, String)>, Item)>,
    cs: Seq<Item>,
    parent: Option<(usize, String)>,
    base: nat,
)
    ensures
        netscape_stack_steps(backend, rest + pushed(cs, parent), base) == netscape_items_steps(
            backend,
            cs,
            parent_view(parent),
            base,
        ) + netscape_stack_steps(
            backend,
            rest,
            base + tag_count(netscape_items_steps(backend, cs, parent_view(parent), base)),
        ),
    decreases cs.len(),
{
    if cs.len() == 0 {
        assert(rest + pushed(cs, parent) =~= rest);
        assert(netscape_items_steps(backend, cs, parent_view(parent), base) =~= seq![]);
    } else {
        let tail = cs.drop_first();
        let first = netscape_item_steps(backend, cs[0], parent_view(parent), base);
        let s = rest + pushed(cs, parent);
        assert(s.last() == (parent, cs[0]));
        assert(s.drop_last() =~= rest + pushed(tail, parent));
        lemma_netscape_stack_push(backend, rest, tail, parent, base + tag_count(first));
        let tail_steps = netscape_items_steps(
            backend,
            tail,
            parent_view(parent),
            base + tag_count(first),
        );
        lemma_tag_count_append(first, tail_steps);
        assert(netscape_items_steps(backend, cs, parent_view(parent), base) == first + tail_steps);
        assert(first + (tail_steps + netscape_stack_steps(
            backend,
            rest,
            base + tag_count(first) + tag_count(tail_steps),
        )) =~= (first + tail_steps) + netscape_stack_steps(
            backend,
            rest,
            base + tag_count(first) + tag_count(tail_steps),
        ));
    }
}

/// A copy of an enclosing folder's tag number and title.
fn copy_parent(p: &Option<(usize, String)>) -> (r: Option<(usize, String)>)
    ensures
        r == *p,
{
    match p {
        Some((k, t)) => Some((*k, t.clone())),
        None => None,
    }
}

/// Pushes the items on the stack with `parent` so that the first is on top.
fn push_items(
    stack: &mut Vec<(Option<(usize, String)>, Item)>,
    cs: Vec<Item>,
    parent: Option<(usize, String)>,
)
    ensures
        final(stack)@ == old(stack)@ + pushed(cs@, parent),
{
    let ghost orig = cs@;
    let ghost start = stack@;
    let mut cs = cs;
    while cs.len() > 0
        invariant
            cs@.len() <= orig.len(),
            cs@ == orig.subrange(0, cs@.len() as int),
            stack@ == start + pushed(orig.subrange(cs@.len() as int, orig.len() as int), parent),
        decreases cs.len(),
    {
        let c = cs.pop().unwrap();
        proof {
            let k = cs@.len() as int;
            assert(pushed(orig.subrange(k, orig.len() as int), parent) =~= pushed(
                orig.subrange(k + 1, orig.len() as int),
                parent,
            ).push((parent, orig[k])));
        }
        stack.push((copy_parent(&parent), c));
        proof {
            assert(cs@ =~= orig.subrange(0, cs@.len() as int));
        }
    }
    assert(orig.subrange(0, orig.len() as int) =~= orig);
}

/// The title of a Netscape folder's tag.
fn netscape_title(backend: Backend, title: String, parent: &Option<(usize, String)>) -> (r: String)
    ensures
        r@ == (match backend {
            Backend::D1 => match parent_view(*parent) {
                Some((_, t)) => t + "/"@ + title@,
                None => title@,
            },
            Backend::Libsql => title@,
        }),
{
    match backend {
        Backend::D1 => match parent {
            Some((_, t)) => {
                let mut path = String::new();
                path.append(t.as_str());
                path.append("/");
                path.append(title.as_str());
                path
            },
            None => title,
        },
        Backend::Libsql => title,
    }
}

/// Takes the top of the stack and appends its step, if it has one.
fn netscape_step(
    backend: Backend,
    stack: &mut Vec<(Option<(usize, String)>, Item)>,
    steps: &mut Vec<ImportStep>,
    ntags: &mut usize,
)
    requires
        old(stack)@.len() > 0,
        *old(ntags) == tag_count(steps_view(old(steps)@)),
    ensures
        *final(ntags) == tag_count(steps_view(final(steps)@)),
        steps_view(final(steps)@) + netscape_stack_steps(
            backend,
            final(stack)@,
            *final(ntags) as nat,
        ) == steps_view(old(steps)@) + netscape_stack_steps(
            backend,
            old(stack)@,
            *old(ntags) as nat,
        ),
        final(steps)@.len() > old(steps)@.len() || (final(steps)@.len() == old(steps)@.len()
            && final(stack)@.len() < old(stack)@.len()),
{
    let ghost before = stack@;
    let ghost done = steps_view(steps@);
    let ghost base = *ntags as nat;
    let (parent, it) = stack.pop().unwrap();
    let ghost rest = stack@;
    let ghost here = netscape_item_steps(backend, it, parent_view(parent), base);
    let ghost later = netscape_stack_steps(backend, rest, base + tag_count(here));
    let ghost node = it;
    assert(netscape_stack_steps(backend, before, base) == here + later);
    let Item { title, href, item } = it;
    let folder_children = match item {
        Some(children) => {
            let folder = match backend {
                Backend::D1 => true,
                Backend::Libsql => children.len() > 0,
            };
            if folder {
                Some(children)
            } else {
                None
            }
        },
        None => None,
    };
    match folder_children {
        Some(children) => {
            let tag_title = netscape_title(backend, title, &parent);
            assert(tag_title@ == netscape_folder_title(backend, node, parent_view(parent)));
            let ordered = match backend {
                Backend::D1 => children,
                Backend::Libsql => reversed(children),
            };
            let n0 = steps.len();
            assert(*ntags < n0 + 1) by {
                lemma_tag_count_len(done);
            }
            let tag = *ntags;
            let child_parent = Some((tag, tag_title.clone()));
            let ghost inner = netscape_items_steps(
                backend,
                ordered@,
                Some((base, tag_title@)),
                base + 1,
            );
            proof {
                if backend == Backend::Libsql {
                    lemma_netscape_rev(
                        backend,
                        node.item->Some_0@,
                        Some((base, tag_title@)),
                        base + 1,
                    );
                }
                assert(here == seq![StepView::Tag(tag_title@)] + inner);
                lemma_netscape_stack_push(backend, rest, ordered@, child_parent, base + 1);
                lemma_tag_count_one(StepView::Tag(tag_title@));
                lemma_tag_count_append(done, seq![StepView::Tag(tag_title@)]);
                lemma_tag_count_append(seq![StepView::Tag(tag_title@)], inner);
            }
            steps.push(ImportStep::Tag { title: tag_title });
            assert(steps_view(steps@) =~= done + seq![StepView::Tag(tag_title@)]);
            let n = steps.len();
            assert(*ntags + 1 <= n) by {
                lemma_tag_count_len(steps_view(steps@));
            }
            *ntags = *ntags + 1;
            push_items(stack, ordered, child_parent);
            assert(steps_view(steps@) + netscape_stack_steps(backend, stack@, *ntags as nat)
                =~= done + (here + later));
        },
        None => {
            match href {
                Some(link) => {
                    let tag = match parent {
                        Some((k, _)) => Some(k),
                        None => None,
                    };
                    steps.push(ImportStep::Bookmark { link, title, tag });
                    proof {
                        assert(steps_view(steps@) =~= done + here);
                        lemma_tag_count_append(done, here);
                        lemma_tag_count_one(here[0]);
                        assert(steps_view(steps@) + later =~= done + (here + later));
                    }
                },
                None => {
                    assert(here =~= seq![]);
                    assert(done + later =~= done + (here + later));
                },
            }
        },
    }
}

/// Plans the import of a Netscape bookmark file: the top-level items are
/// stacked and taken from the top (the last first); a folder finds or creates
/// the tag that the backend titles it with and stacks its children with that
/// tag; an item with a link stores the bookmark with the item's title and links
/// it to the tag of its folder; other items give no step.
pub fn plan_netscape_import(items: Vec<Item>, backend: Backend) -> (steps: Vec<ImportStep>)
    ensures
        steps_view(steps@) == netscape_import_steps(backend, items@),
{
    let ghost total = netscape_import_steps(backend, items@);
    let mut stack: Vec<(Option<(usize, String)>, Item)> = Vec::new();
    let ghost orig = items@;
    let ghost rev = items@.reverse();
    push_items(&mut stack, reversed(items), None);
    proof {
        lemma_netscape_rev(backend, orig, None, 0);
        lemma_netscape_stack_push(backend, seq![], rev, None, 0);
        assert(seq![] + pushed(rev, None::<(usize, String)>) =~= pushed(
            rev,
            None::<(usize, String)>,
        ));
        assert(netscape_stack_steps(
            backend,
            seq![],
            tag_count(netscape_items_steps(backend, rev, None, 0)),
        ) =~= seq![]);
        assert(netscape_items_steps(backend, rev, None, 0) + seq![] =~= netscape_items_steps(
            backend,
            rev,
            None,
            0,
        ));
    }
    let mut steps: Vec<ImportStep> = Vec::new();
    let mut ntags: usize = 0;
    assert(steps_view(steps@) =~= seq![]);
    while stack.len() > 0
        invariant
            ntags == tag_count(steps_view(steps@)),
            steps_view(steps@) + netscape_stack_steps(backend, stack@, ntags as nat) == total,
        decreases total.len() - steps@.len(), stack@.len(),
    {
        netscape_step(backend, &mut stack, &mut steps, &mut ntags);
    }
    assert(steps_view(steps@) =~= total);
    steps
}

// ---------------------------------------------------------------------------
// Tag references.

/// The number of the tag that a step links its row to, if any.
pub open spec fn step_tag(s: StepView) -> Option<nat> {
    match s {
        StepView::Tag(_) => None,
        StepView::Feed(_, _, _, t) => t,
        StepView::Bookmark(_, _, t) => t,
    }
}

/// Every tag that a step links to was found by an earlier step, where the
/// earlier steps' tags are numbered from `base`.
pub open spec fn refers_back_from(steps: Seq<StepView>, base: nat) -> bool {
    forall|i: int|
        #![trigger steps[i]]
        0 <= i < steps.len() ==> match step_tag(steps[i]) {
            Some(t) => t < base + tag_count(steps.take(i)),
            None => true,
        }
}

proof fn lemma_refers_back_concat(a: Seq<StepView>, b: Seq<StepView>, base: nat)
    requires
        refers_back_from(a, base),
        refers_back_from(b, base + tag_count(a)),
    ensures
        refers_back_from(a + b, base),
{
    assert forall|i: int| #![trigger (a + b)[i]] 0 <= i < (a + b).len() implies match step_tag((a + b)[i]) {
        Some(t) => t < base + tag_count((a + b).take(i)),
        None => true,
    } by {
        if i < a.len() {
            assert((a + b).take(i) =~= a.take(i));
            assert((a + b)[i] == a[i]);
        } else {
            let j = i - a.len();
            assert((a + b).take(i) =~= a + b.take(j));
            lemma_tag_count_append(a, b.take(j));
            assert((a + b)[i] == b[j]);
        }
    }
}

proof fn lemma_refers_back_leaf(s: StepView, base: nat)
    requires
        step_tag(s) matches Some(t) ==> t < base,
    ensures
        refers_back_from(seq![s], base),
{
    assert(seq![s].take(0) =~= Seq::<StepView>::empty());
    assert(tag_count(Seq::<StepView>::empty()) == 0);
}

proof fn lemma_refers_back_folder(t: Seq<char>, rest: Seq<StepView>, base: nat)
    requires
        refers_back_from(rest, base + 1),
    ensures
        refers_back_from(seq![StepView::Tag(t)] + rest, base),
{
    lemma_refers_back_leaf(StepView::Tag(t), base);
    lemma_tag_count_one(StepView::Tag(t));
    lemma_refers_back_concat(seq![StepView::Tag(t)], rest, base);
}

proof fn lemma_opml_outline_refers_back(backend: Backend, o: Outline, parent: Option<nat>, base: nat)
    requires
        parent matches Some(p) ==> p < base,
    ensures
        refers_back_from(opml_outline_steps(backend, o, parent, base), base),
    decreases o,
{
    match o.outline {
        Some(cs) if is_folder_list(backend, cs@) => {
            match backend {
                Backend::D1 => lemma_opml_outlines_refers_back(backend, cs@, Some(base), base + 1),
                Backend::Libsql => lemma_opml_outlines_rev_refers_back(backend, cs@, Some(base), base + 1),
            }
            lemma_refers_back_folder(
                opml_folder_title(backend, o),
                match backend {
                    Backend::D1 => opml_outlines_steps(backend, cs@, Some(base), base + 1),
                    Backend::Libsql => opml_outlines_steps_rev(backend, cs@, Some(base), base + 1),
                },
                base,
            );
        },
        _ => match o.html_url {
            Some(link) => lemma_refers_back_leaf(
                StepView::Feed(link@, outline_title(o), opt_text(o.xml_url), parent),
                base,
            ),
            None => {},
        },
    }
}

proof fn lemma_opml_outlines_refers_back(
    backend: Backend,
    cs: Seq<Outline>,
    parent: Option<nat>,
    base: nat,
)
    requires
        parent matches Some(p) ==> p < base,
    ensures
        refers_back_from(opml_outlines_steps(backend, cs, parent, base), base),
    decreases cs,
{
    if cs.len() > 0 {
        let first = opml_outline_steps(backend, cs[0], parent, base);
        lemma_opml_outline_refers_back(backend, cs[0], parent, base);
        lemma_opml_outlines_refers_back(backend, cs.drop_first(), parent, base + tag_count(first));
        lemma_refers_back_concat(
            first,
            opml_outlines_steps(backend, cs.drop_first(), parent, base + tag_count(first)),
            base,
        );
    }
}

proof fn lemma_opml_outlines_rev_refers_back(
    backend: Backend,
    cs: Seq<Outline>,
    parent: Option<nat>,
    base: nat,
)
    requires
        parent matches Some(p) ==> p < base,
    ensures
        refers_back_from(opml_outlines_steps_rev(backend, cs, parent, base), base),
    decreases cs,
{
    if cs.len() > 0 {
        let first = opml_outline_steps(backend, cs.last(), parent, base);
        lemma_opml_outline_refers_back(backend, cs.last(), parent, base);
        lemma_opml_outlines_rev_refers_back(backend, cs.drop_last(), parent, base + tag_count(first));
        lemma_refers_back_concat(
            first,
            opml_outlines_steps_rev(backend, cs.drop_last(), parent, base + tag_count(first)),
            base,
        );
    }
}

/// In an OPML import plan, every feed that is linked to a tag is linked to one
/// that an earlier step found or created: the tag of its folder is always
/// found before the folder's feeds.
pub proof fn opml_plan_refers_back(backend: Backend, outlines: Seq<Outline>)
    ensures
        refers_back_from(opml_import_steps(backend, outlines), 0),
{
    lemma_opml_outlines_rev_refers_back(backend, outlines, None, 0);
}

proof fn lemma_netscape_item_refers_back(
    backend: Backend,
    item: Item,
    parent: Option<(nat, Seq<char>)>,
    base: nat,
)
    requires
        parent matches Some((p, _)) ==> p < base,
    ensures
        refers_back_from(netscape_item_steps(backend, item, parent, base), base),
    decreases item,
{
    match item.item {
        Some(cs) if is_folder_list(backend, cs@) => {
            let t = netscape_folder_title(backend, item, parent);
            match backend {
                Backend::D1 => lemma_netscape_items_refers_back(backend, cs@, Some((base, t)), base + 1),
                Backend::Libsql => lemma_netscape_items_rev_refers_back(backend, cs@, Some((base, t)), base + 1),
            }
            lemma_refers_back_folder(
                t,
                match backend {
                    Backend::D1 => netscape_items_steps(backend, cs@, Some((base, t)), base + 1),
                    Backend::Libsql => netscape_items_steps_rev(backend, cs@, Some((base, t)), base + 1),
                },
                base,
            );
        },
        _ => match item.href {
            Some(link) => lemma_refers_back_leaf(
                StepView::Bookmark(link@, item.title@, parent_tag(parent)),
                base,
            ),
            None => {},
        },
    }
}

proof fn lemma_netscape_items_refers_back(
    backend: Backend,
    cs: Seq<Item>,
    parent: Option<(nat, Seq<char>)>,
    base: nat,
)
    requires
        parent matches Some((p, _)) ==> p < base,
    ensures
        refers_back_from(netscape_items_steps(backend, cs, parent, base), base),
    decreases cs,
{
    if cs.len() > 0 {
        let first = netscape_item_steps(backend, cs[0], parent, base);
        lemma_netscape_item_refers_back(backend, cs[0], parent, base);
        lemma_netscape_items_refers_back(backend, cs.drop_first(), parent, base + tag_count(first));
        lemma_refers_back_concat(
            first,
            netscape_items_steps(backend, cs.drop_first(), parent, base + tag_count(first)),
            base,
        );
    }
}

proof fn lemma_netscape_items_rev_refers_back(
    backend: Backend,
    cs: Seq<Item>,
    parent: Option<(nat, Seq<char>)>,
    base: nat,
)
    requires
        parent matches Some((p, _)) ==> p < base,
    ensures
        refers_back_from(netscape_items_steps_rev(backend, cs, parent, base), base),
    decreases cs,
{
    if cs.len() > 0 {
        let first = netscape_item_steps(backend, cs.last(), parent, base);
        lemma_netscape_item_refers_back(backend, cs.last(), parent, base);
        lemma_netscape_items_rev_refers_back(backend, cs.drop_last(), parent, base + tag_count(first));
        lemma_refers_back_concat(
            first,
            netscape_items_steps_rev(backend, cs.drop_last(), parent, base + tag_count(first)),
            base,
        );
    }
}

/// In a Netscape import plan, every bookmark that is linked to a tag is linked
/// to one that an earlier step found or created.
pub proof fn netscape_plan_refers_back(backend: Backend, items: Seq<Item>)
    ensures
        refers_back_from(netscape_import_steps(backend, items), 0),
{
    lemma_netscape_items_rev_refers_back(backend, items, None, 0);
}

// ---------------------------------------------------------------------------
// Feeds and bookmarks are linked to the folder that holds them.

/// Whether the backend takes an outline for a folder.
pub open spec fn opml_is_folder(backend: Backend, o: Outline) -> bool {
    match o.outline {
        Some(cs) => is_folder_list(backend, cs@),
        None => false,
    }
}

/// The feed step of an outline that is no folder and has a site link, linked
/// to `tag`.
pub open spec fn opml_feed_step(o: Outline, tag: Option<nat>) -> StepView {
    StepView::Feed(o.html_url->Some_0@, outline_title(o), opt_text(o.xml_url), tag)
}

proof fn lemma_contains_shift(a: Seq<StepView>, b: Seq<StepView>, x: StepView)
    requires
        b.contains(x),
    ensures
        (a + b).contains(x),
        (b + a).contains(x),
{
    let k = choose|k: int| 0 <= k < b.len() && b[k] == x;
    assert((a + b)[a.len() + k] == x);
    assert((b + a)[k] == x);
}

proof fn lemma_opml_children_feed(backend: Backend, cs: Seq<Outline>, parent: Option<nat>, base: nat, j: int)
    requires
        0 <= j < cs.len(),
        !opml_is_folder(backend, cs[j]),
        cs[j].html_url is Some,
    ensures
        opml_outlines_steps(backend, cs, parent, base).contains(opml_feed_step(cs[j], parent)),
    decreases j,
{
    let first = opml_outline_steps(backend, cs[0], parent, base);
    let rest = opml_outlines_steps(backend, cs.drop_first(), parent, base + tag_count(first));
    if j == 0 {
        assert(first == seq![opml_feed_step(cs[0], parent)]);
        assert(first[0] == opml_feed_step(cs[0], parent));
        lemma_contains_shift(rest, first, opml_feed_step(cs[0], parent));
    } else {
        assert(cs.drop_first()[j - 1] == cs[j]);
        lemma_opml_children_feed(backend, cs.drop_first(), parent, base + tag_count(first), j - 1);
        lemma_contains_shift(first, rest, opml_feed_step(cs[j], parent));
    }
}

proof fn lemma_opml_children_rev_feed(
    backend: Backend,
    cs: Seq<Outline>,
    parent: Option<nat>,
    base: nat,
    j: int,
)
    requires
        0 <= j < cs.len(),
        !opml_is_folder(backend, cs[j]),
        cs[j].html_url is Some,
    ensures
        opml_outlines_steps_rev(backend, cs, parent, base).contains(opml_feed_step(cs[j], parent)),
    decreases cs.len(),
{
    let first = opml_outline_steps(backend, cs.last(), parent, base);
    let rest = opml_outlines_steps_rev(backend, cs.drop_last(), parent, base + tag_count(first));
    if j == cs.len() - 1 {
        assert(first == seq![opml_feed_step(cs[j], parent)]);
        assert(first[0] == opml_feed_step(cs[j], parent));
        lemma_contains_shift(rest, first, opml_feed_step(cs[j], parent));
    } else {
        assert(cs.drop_last()[j] == cs[j]);
        lemma_opml_children_rev_feed(backend, cs.drop_last(), parent, base + tag_count(first), j);
        lemma_contains_shift(first, rest, opml_feed_step(cs[j], parent));
    }
}

/// A folder's steps start with the Tag step of the folder, numbered `base`
/// (the number of tags found before it), and every child of the folder that is
/// a feed gives a Feed step linked to that very number: a feed is linked to
/// the folder that directly holds it, whatever folder holds that one.
pub proof fn opml_folder_links_its_feeds(
    backend: Backend,
    o: Outline,
    parent: Option<nat>,
    base: nat,
    j: int,
)
    requires
        opml_is_folder(backend, o),
        0 <= j < o.outline->Some_0@.len(),
        !opml_is_folder(backend, o.outline->Some_0@[j]),
        o.outline->Some_0@[j].html_url is Some,
    ensures
        opml_outline_steps(backend, o, parent, base)[0] == StepView::Tag(opml_folder_title(backend, o)),
        opml_outline_steps(backend, o, parent, base).contains(
            opml_feed_step(o.outline->Some_0@[j], Some(base)),
        ),
{
    let cs = o.outline->Some_0@;
    let x = opml_feed_step(cs[j], Some(base));
    match backend {
        Backend::D1 => {
            lemma_opml_children_feed(backend, cs, Some(base), base + 1, j);
            lemma_contains_shift(seq![StepView::Tag(opml_folder_title(backend, o))], opml_outlines_steps(backend, cs, Some(base), base + 1), x);
        },
        Backend::Libsql => {
            lemma_opml_children_rev_feed(backend, cs, Some(base), base + 1, j);
            lemma_contains_shift(seq![StepView::Tag(opml_folder_title(backend, o))], opml_outlines_steps_rev(backend, cs, Some(base), base + 1), x);
        },
    }
}

/// The plan of some outlines with one more after them starts with the plan of
/// that last outline on its own, with no enclosing folder and no tag found
/// before it.
pub proof fn opml_plan_takes_last_first(backend: Backend, outlines: Seq<Outline>, o: Outline)
    ensures
        opml_import_steps(backend, seq![o]) == opml_outline_steps(backend, o, None, 0),
        opml_outline_steps(backend, o, None, 0).is_prefix_of(
            opml_import_steps(backend, outlines.push(o)),
        ),
{
    let one = seq![o];
    assert(one.last() == o);
    assert(one.drop_last() =~= Seq::<Outline>::empty());
    let first = opml_outline_steps(backend, o, None, 0);
    assert(opml_outlines_steps_rev(backend, Seq::<Outline>::empty(), None, tag_count(first)) =~= seq![]);
    assert(first + Seq::<StepView>::empty() =~= first);
    let all = outlines.push(o);
    assert(all.last() == o);
    assert(all.drop_last() =~= outlines);
    let rest = opml_outlines_steps_rev(backend, outlines, None, tag_count(first));
    assert((first + rest).subrange(0, first.len() as int) =~= first);
}

/// Whether the backend takes a bookmark item for a folder.
pub open spec fn netscape_is_folder(backend: Backend, item: Item) -> bool {
    match item.item {
        Some(cs) => is_folder_list(backend, cs@),
        None => false,
    }
}

/// The bookmark step of an item that is no folder and has a link, linked to
/// `tag`.
pub open spec fn netscape_bookmark_step(item: Item, tag: Option<nat>) -> StepView {
    StepView::Bookmark(item.href->Some_0@, item.title@, tag)
}

proof fn lemma_netscape_children_bookmark(
    backend: Backend,
    cs: Seq<Item>,
    parent: Option<(nat, Seq<char>)>,
    base: nat,
    j: int,
)
    requires
        0 <= j < cs.len(),
        !netscape_is_folder(backend, cs[j]),
        cs[j].href is Some,
    ensures
        netscape_items_steps(backend, cs, parent, base).contains(netscape_bookmark_step(cs[j], parent_tag(parent))),
    decreases j,
{
    let first = netscape_item_steps(backend, cs[0], parent, base);
    let rest = netscape_items_steps(backend, cs.drop_first(), parent, base + tag_count(first));
    if j == 0 {
        assert(first == seq![netscape_bookmark_step(cs[0], parent_tag(parent))]);
        assert(first[0] == netscape_bookmark_step(cs[0], parent_tag(parent)));
        lemma_contains_shift(rest, first, netscape_bookmark_step(cs[0], parent_tag(parent)));
    } else {
        assert(cs.drop_first()[j - 1] == cs[j]);
        lemma_netscape_children_bookmark(backend, cs.drop_first(), parent, base + tag_count(first), j - 1);
        lemma_contains_shift(first, rest, netscape_bookmark_step(cs[j], parent_tag(parent)));
    }
}

proof fn lemma_netscape_children_rev_bookmark(
    backend: Backend,
    cs: Seq<Item>,
    parent: Option<(nat, Seq<char>)>,
    base: nat,
    j: int,
)
    requires
        0 <= j < cs.len(),
        !netscape_is_folder(backend, cs[j]),
        cs[j].href is Some,
    ensures
        netscape_items_steps_rev(backend, cs, parent, base).contains(netscape_bookmark_step(cs[j], parent_tag(parent))),
    decreases cs.len(),
{
    let first = netscape_item_steps(backend, cs.last(), parent, base);
    let rest = netscape_items_steps_rev(backend, cs.drop_last(), parent, base + tag_count(first));
    if j == cs.len() - 1 {
        assert(first == seq![netscape_bookmark_step(cs[j], parent_tag(parent))]);
        assert(first[0] == netscape_bookmark_step(cs[j], parent_tag(parent)));
        lemma_contains_shift(rest, first, netscape_bookmark_step(cs[j], parent_tag(parent)));
    } else {
        assert(cs.drop_last()[j] == cs[j]);
        lemma_netscape_children_rev_bookmark(backend, cs.drop_last(), parent, base + tag_count(first), j);
        lemma_contains_shift(first, rest, netscape_bookmark_step(cs[j], parent_tag(parent)));
    }
}

/// A bookmark folder's steps start with its Tag step, numbered `base`, and
/// every child of the folder that is a bookmark gives a Bookmark step linked to
/// that very number.
pub proof fn netscape_folder_links_its_bookmarks(
    backend: Backend,
    item: Item,
    parent: Option<(nat, Seq<char>)>,
    base: nat,
    j: int,
)
    requires
        netscape_is_folder(backend, item),
        0 <= j < item.item->Some_0@.len(),
        !netscape_is_folder(backend, item.item->Some_0@[j]),
        item.item->Some_0@[j].href is Some,
    ensures
        netscape_item_steps(backend, item, parent, base)[0] is Tag,
        netscape_item_steps(backend, item, parent, base).contains(
            netscape_bookmark_step(item.item->Some_0@[j], Some(base)),
        ),
{
    let cs = item.item->Some_0@;
    let t = netscape_folder_title(backend, item, parent);
    let x = netscape_bookmark_step(cs[j], Some(base));
    assert(parent_tag(Some((base, t))) == Some(base));
    match backend {
        Backend::D1 => {
            lemma_netscape_children_bookmark(backend, cs, Some((base, t)), base + 1, j);
            lemma_contains_shift(seq![StepView::Tag(t)], netscape_items_steps(backend, cs, Some((base, t)), base + 1), x);
        },
        Backend::Libsql => {
            lemma_netscape_children_rev_bookmark(backend, cs, Some((base, t)), base + 1, j);
            lemma_contains_shift(seq![StepView::Tag(t)], netscape_items_steps_rev(backend, cs, Some((base, t)), base + 1), x);
        },
    }
}

} // verus!
