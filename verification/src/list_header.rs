//! The header of a list in the user interface.

use vstd::prelude::*;

verus! {

/// How closely the user interface is set.
#[derive(Clone, Copy, Debug, PartialEq, Eq, Structural)]
pub enum UiDensity {
    Compact,
    Default,
    Comfortable,
}

/// The name of the group that a pointer over the header is a pointer over.
pub const HEADER_GROUP: &'static str = "list_header";

/// The identifier of the disclosure arrow.
pub const DISCLOSURE_ID: &'static str = "toggle";

/// The identifier of the container of the label.
pub const LABEL_CONTAINER_ID: &'static str = "label_container";

/// A property of a container. Lengths are in steps of the spacing scale.
#[derive(Clone, Copy, Debug, PartialEq, Eq, Structural)]
pub enum Style {
    Flex,
    Flex1,
    ItemsCenter,
    JustifyBetween,
    WidthFull,
    Height(u8),
    PaddingX(u8),
    /// The gap between children, which follows the density of the interface.
    GapBase04,
    Relative,
    Absolute,
    Right0,
    /// The background of a selected ghost element in the current theme.
    GhostElementSelected,
}

/// The containers that a header is made of.
#[derive(Clone, Copy, Debug, PartialEq, Eq, Structural)]
pub enum Container {
    /// A row whose children are centered across it.
    HFlex,
    Div,
}

/// One instruction for drawing. Between `Open` and its `Close` stands what a
/// container has and holds, in order. `E` stands for an element of the caller's,
/// and `H` for what is to be called on a click.
#[derive(Debug, PartialEq)]
pub enum DrawOp<E, H> {
    Open(Container),
    Close,
    Id(String),
    Style(Style),
    Group(String),
    VisibleOnHover(String),
    OnClick(H),
    Child(E),
    Disclosure { id: String, is_open: bool, on_toggle: Option<H> },
    MutedLabel(String),
}

/// An instruction with its text as a sequence of characters.
pub enum DrawOpView<E, H> {
    Open(Container),
    Close,
    Id(Seq<char>),
    Style(Style),
    Group(Seq<char>),
    VisibleOnHover(Seq<char>),
    OnClick(H),
    Child(E),
    Disclosure { id: Seq<char>, is_open: bool, on_toggle: Option<H> },
    MutedLabel(Seq<char>),
}

impl<E, H> View for DrawOp<E, H> {
    type V = DrawOpView<E, H>;

    open spec fn view(&self) -> DrawOpView<E, H> {
        match *self {
            DrawOp::Open(container) => DrawOpView::Open(container),
            DrawOp::Close => DrawOpView::Close,
            DrawOp::Id(id) => DrawOpView::Id(id@),
            DrawOp::Style(style) => DrawOpView::Style(style),
            DrawOp::Group(group) => DrawOpView::Group(group@),
            DrawOp::VisibleOnHover(group) => DrawOpView::VisibleOnHover(group@),
            DrawOp::OnClick(handler) => DrawOpView::OnClick(handler),
            DrawOp::Child(element) => DrawOpView::Child(element),
            DrawOp::Disclosure { id, is_open, on_toggle } => DrawOpView::Disclosure {
                id: id@,
                is_open,
                on_toggle,
            },
            DrawOp::MutedLabel(text) => DrawOpView::MutedLabel(text@),
        }
    }
}

/// What a list of instructions stands for.
pub open spec fn op_views<E, H>(ops: Seq<DrawOp<E, H>>) -> Seq<DrawOpView<E, H>> {
    ops.map_values(|op: DrawOp<E, H>| op@)
}

/// The header of a list: a label, and what stands around it.
pub struct ListHeader<E, H> {
    /// The label of the header.
    pub label: String,
    /// What stands before the label, like an icon or an avatar.
    pub start_slot: Option<E>,
    /// What stands behind the label, usually on the other side of the header.
    pub end_slot: Option<E>,
    /// What stands behind the label while the pointer is over the header. It
    /// hides `end_slot` then.
    pub end_hover_slot: Option<E>,
    /// Whether the list below is open, if it can be closed.
    pub toggle: Option<bool>,
    /// What to call when the header is clicked.
    pub on_toggle: Option<H>,
    pub inset: bool,
    pub selected: bool,
}

impl<E, H: Copy> ListHeader<E, H> {
    /// A header with a label and nothing else.
    pub fn new(label: String) -> (header: Self)
        ensures
            header == (ListHeader::<E, H> {
                label,
                start_slot: None,
                end_slot: None,
                end_hover_slot: None,
                toggle: None,
                on_toggle: None,
                inset: false,
                selected: false,
            }),
    {
        ListHeader {
            label,
            start_slot: None,
            end_slot: None,
            end_hover_slot: None,
            toggle: None,
            on_toggle: None,
            inset: false,
            selected: false,
        }
    }

    /// Sets whether the list below is open, if it can be closed.
    pub fn toggle(self, toggle: Option<bool>) -> (header: Self)
        ensures
            header == (ListHeader { toggle, ..self }),
    {
        ListHeader { toggle, ..self }
    }

    /// Sets what to call when the header is clicked.
    pub fn on_toggle(self, on_toggle: H) -> (header: Self)
        ensures
            header == (ListHeader { on_toggle: Some(on_toggle), ..self }),
    {
        ListHeader { on_toggle: Some(on_toggle), ..self }
    }

    /// Sets what stands before the label.
    pub fn start_slot(self, start_slot: Option<E>) -> (header: Self)
        ensures
            header == (ListHeader { start_slot, ..self }),
    {
        ListHeader { start_slot, ..self }
    }

    /// Sets what stands behind the label.
    pub fn end_slot(self, end_slot: Option<E>) -> (header: Self)
        ensures
            header == (ListHeader { end_slot, ..self }),
    {
        ListHeader { end_slot, ..self }
    }

    /// Sets what stands behind the label while the pointer is over the header.
    pub fn end_hover_slot(self, end_hover_slot: Option<E>) -> (header: Self)
        ensures
            header == (ListHeader { end_hover_slot, ..self }),
    {
        ListHeader { end_hover_slot, ..self }
    }

    /// Sets whether the header is inset.
    pub fn inset(self, inset: bool) -> (header: Self)
        ensures
            header == (ListHeader { inset, ..self }),
    {
        ListHeader { inset, ..self }
    }

    /// Sets whether the header is selected.
    pub fn toggle_state(self, selected: bool) -> (header: Self)
        ensures
            header == (ListHeader { selected, ..self }),
    {
        ListHeader { selected, ..self }
    }
}

/// The instruction that draws an element, if there is one.
pub open spec fn slot_ops<E, H>(slot: Option<E>) -> Seq<DrawOpView<E, H>> {
    match slot {
        Some(element) => seq![DrawOpView::Child(element)],
        None => seq![],
    }
}

/// The instruction for `style`, if it applies.
pub open spec fn style_ops<E, H>(applies: bool, style: Style) -> Seq<DrawOpView<E, H>> {
    if applies {
        seq![DrawOpView::Style(style)]
    } else {
        seq![]
    }
}

/// The height of a header. A comfortable interface has the lowest one.
pub open spec fn header_height(density: UiDensity) -> u8 {
    match density {
        UiDensity::Comfortable => 5,
        _ => 7,
    }
}

/// A container with what it has and holds.
pub open spec fn contained<E, H>(container: Container, inner: Seq<DrawOpView<E, H>>) -> Seq<
    DrawOpView<E, H>,
> {
    seq![DrawOpView::<E, H>::Open(container)] + inner + seq![DrawOpView::<E, H>::Close]
}

/// What the container of the label has and holds: what stands before the label,
/// the label, and what a click on them calls.
pub open spec fn label_ops<E, H>(label: Seq<char>, start_slot: Option<E>, on_toggle: Option<H>) -> Seq<
    DrawOpView<E, H>,
> {
    seq![
        DrawOpView::<E, H>::Id(LABEL_CONTAINER_ID@),
        DrawOpView::Style(Style::Flex),
        DrawOpView::Style(Style::GapBase04),
        DrawOpView::Style(Style::ItemsCenter),
    ] + slot_ops::<E, H>(start_slot) + seq![DrawOpView::<E, H>::MutedLabel(label)] + (
    match on_toggle {
        Some(handler) => seq![DrawOpView::<E, H>::OnClick(handler)],
        None => seq![],
    })
}

/// What stands before the container of the label: the disclosure arrow of a list
/// that can be closed.
pub open spec fn disclosure_ops<E, H>(toggle: Option<bool>, on_toggle: Option<H>) -> Seq<
    DrawOpView<E, H>,
> {
    seq![DrawOpView::<E, H>::Style(Style::GapBase04)] + (match toggle {
        Some(is_open) => seq![
            DrawOpView::<E, H>::Disclosure { id: DISCLOSURE_ID@, is_open, on_toggle },
        ],
        None => seq![],
    })
}

/// The near side of the header.
pub open spec fn near_side_ops<E, H>(
    label: Seq<char>,
    start_slot: Option<E>,
    toggle: Option<bool>,
    on_toggle: Option<H>,
) -> Seq<DrawOpView<E, H>> {
    contained(
        Container::HFlex,
        disclosure_ops::<E, H>(toggle, on_toggle) + contained(
            Container::Div,
            label_ops(label, start_slot, on_toggle),
        ),
    )
}

/// The far side of the header.
pub open spec fn far_side_ops<E, H>(end_slot: Option<E>) -> Seq<DrawOpView<E, H>> {
    contained(Container::HFlex, slot_ops::<E, H>(end_slot))
}

/// What covers the far side while the pointer is over the header.
pub open spec fn hover_ops<E, H>(end_hover_slot: Option<E>) -> Seq<DrawOpView<E, H>> {
    match end_hover_slot {
        Some(element) => contained(
            Container::Div,
            seq![
                DrawOpView::<E, H>::Style(Style::Absolute),
                DrawOpView::Style(Style::Right0),
                DrawOpView::VisibleOnHover(HEADER_GROUP@),
                DrawOpView::Child(element),
            ],
        ),
        None => seq![],
    }
}

/// How the row inside the header looks.
pub open spec fn row_style_ops<E, H>(inset: bool, selected: bool, density: UiDensity) -> Seq<
    DrawOpView<E, H>,
> {
    seq![DrawOpView::<E, H>::Style(Style::Height(header_height(density)))] + style_ops::<E, H>(
        inset,
        Style::PaddingX(2),
    ) + style_ops::<E, H>(selected, Style::GhostElementSelected) + seq![
        DrawOpView::<E, H>::Style(Style::Flex),
        DrawOpView::Style(Style::Flex1),
        DrawOpView::Style(Style::ItemsCenter),
        DrawOpView::Style(Style::JustifyBetween),
        DrawOpView::Style(Style::WidthFull),
        DrawOpView::Style(Style::GapBase04),
    ]
}

/// The row inside the header.
pub open spec fn row_ops<E, H>(header: ListHeader<E, H>, density: UiDensity) -> Seq<
    DrawOpView<E, H>,
> {
    contained(
        Container::Div,
        row_style_ops::<E, H>(header.inset, header.selected, density) + near_side_ops(
            header.label@,
            header.start_slot,
            header.toggle,
            header.on_toggle,
        ) + far_side_ops::<E, H>(header.end_slot) + hover_ops::<E, H>(header.end_hover_slot),
    )
}

/// How the header itself looks.
pub open spec fn header_style_ops<E, H>(label: Seq<char>) -> Seq<DrawOpView<E, H>> {
    seq![
        DrawOpView::<E, H>::Id(label),
        DrawOpView::Style(Style::WidthFull),
        DrawOpView::Style(Style::Relative),
        DrawOpView::Group(HEADER_GROUP@),
    ]
}

/// The instructions that draw a header.
pub open spec fn render_spec<E, H>(header: ListHeader<E, H>, density: UiDensity) -> Seq<
    DrawOpView<E, H>,
> {
    contained(
        Container::HFlex,
        header_style_ops::<E, H>(header.label@) + row_ops(header, density),
    )
}

fn push_op<E, H>(ops: &mut Vec<DrawOp<E, H>>, op: DrawOp<E, H>)
    ensures
        op_views(final(ops)@) == op_views(old(ops)@).push(op@),
{
    ops.push(op);
    assert(op_views(ops@) =~= op_views(old(ops)@).push(op@));
}

fn push_slot<E, H>(ops: &mut Vec<DrawOp<E, H>>, slot: Option<E>)
    ensures
        op_views(final(ops)@) == op_views(old(ops)@) + slot_ops::<E, H>(slot),
{
    match slot {
        Some(element) => {
            push_op(ops, DrawOp::Child(element));
        },
        None => {},
    }
    assert(op_views(ops@) =~= op_views(old(ops)@) + slot_ops::<E, H>(slot));
}

fn push_label<E, H: Copy>(
    ops: &mut Vec<DrawOp<E, H>>,
    label: String,
    start_slot: Option<E>,
    on_toggle: Option<H>,
)
    ensures
        op_views(final(ops)@) == op_views(old(ops)@) + label_ops(label@, start_slot, on_toggle),
{
    push_op(ops, DrawOp::Id(LABEL_CONTAINER_ID.to_string()));
    push_op(ops, DrawOp::Style(Style::Flex));
    push_op(ops, DrawOp::Style(Style::GapBase04));
    push_op(ops, DrawOp::Style(Style::ItemsCenter));
    push_slot(ops, start_slot);
    push_op(ops, DrawOp::MutedLabel(label));
    match on_toggle {
        Some(handler) => {
            push_op(ops, DrawOp::OnClick(handler));
        },
        None => {},
    }
    assert(op_views(ops@) =~= op_views(old(ops)@) + label_ops(label@, start_slot, on_toggle));
}

fn push_disclosure<E, H: Copy>(
    ops: &mut Vec<DrawOp<E, H>>,
    toggle: Option<bool>,
    on_toggle: Option<H>,
)
    ensures
        op_views(final(ops)@) == op_views(old(ops)@) + disclosure_ops::<E, H>(toggle, on_toggle),
{
    push_op(ops, DrawOp::Style(Style::GapBase04));
    match toggle {
        Some(is_open) => {
            push_op(
                ops,
                DrawOp::Disclosure { id: DISCLOSURE_ID.to_string(), is_open, on_toggle },
            );
        },
        None => {},
    }
    assert(op_views(ops@) =~= op_views(old(ops)@) + disclosure_ops::<E, H>(toggle, on_toggle));
}

fn push_near_side<E, H: Copy>(
    ops: &mut Vec<DrawOp<E, H>>,
    label: String,
    start_slot: Option<E>,
    toggle: Option<bool>,
    on_toggle: Option<H>,
)
    ensures
        op_views(final(ops)@) == op_views(old(ops)@) + near_side_ops(
            label@,
            start_slot,
            toggle,
            on_toggle,
        ),
{
    push_op(ops, DrawOp::Open(Container::HFlex));
    push_disclosure(ops, toggle, on_toggle);
    push_op(ops, DrawOp::Open(Container::Div));
    push_label(ops, label, start_slot, on_toggle);
    push_op(ops, DrawOp::Close);
    push_op(ops, DrawOp::Close);
    assert(op_views(ops@) =~= op_views(old(ops)@) + near_side_ops(
        label@,
        start_slot,
        toggle,
        on_toggle,
    ));
}

fn push_far_side<E, H>(ops: &mut Vec<DrawOp<E, H>>, end_slot: Option<E>)
    ensures
        op_views(final(ops)@) == op_views(old(ops)@) + far_side_ops::<E, H>(end_slot),
{
    push_op(ops, DrawOp::Open(Container::HFlex));
    push_slot(ops, end_slot);
    push_op(ops, DrawOp::Close);
    assert(op_views(ops@) =~= op_views(old(ops)@) + far_side_ops::<E, H>(end_slot));
}

fn push_hover<E, H>(ops: &mut Vec<DrawOp<E, H>>, end_hover_slot: Option<E>)
    ensures
        op_views(final(ops)@) == op_views(old(ops)@) + hover_ops::<E, H>(end_hover_slot),
{
    match end_hover_slot {
        Some(element) => {
            push_op(ops, DrawOp::Open(Container::Div));
            push_op(ops, DrawOp::Style(Style::Absolute));
            push_op(ops, DrawOp::Style(Style::Right0));
            push_op(ops, DrawOp::VisibleOnHover(HEADER_GROUP.to_string()));
            push_op(ops, DrawOp::Child(element));
            push_op(ops, DrawOp::Close);
        },
        None => {},
    }
    assert(op_views(ops@) =~= op_views(old(ops)@) + hover_ops::<E, H>(end_hover_slot));
}

fn push_row_style<E, H>(
    ops: &mut Vec<DrawOp<E, H>>,
    inset: bool,
    selected: bool,
    density: UiDensity,
)
    ensures
        op_views(final(ops)@) == op_views(old(ops)@) + row_style_ops::<E, H>(
            inset,
            selected,
            density,
        ),
{
    let height: u8 = match density {
        UiDensity::Comfortable => 5,
        _ => 7,
    };
    push_op(ops, DrawOp::Style(Style::Height(height)));
    if inset {
        push_op(ops, DrawOp::Style(Style::PaddingX(2)));
    }
    if selected {
        push_op(ops, DrawOp::Style(Style::GhostElementSelected));
    }
    push_op(ops, DrawOp::Style(Style::Flex));
    push_op(ops, DrawOp::Style(Style::Flex1));
    push_op(ops, DrawOp::Style(Style::ItemsCenter));
    push_op(ops, DrawOp::Style(Style::JustifyBetween));
    push_op(ops, DrawOp::Style(Style::WidthFull));
    push_op(ops, DrawOp::Style(Style::GapBase04));
    assert(op_views(ops@) =~= op_views(old(ops)@) + row_style_ops::<E, H>(
        inset,
        selected,
        density,
    ));
}

impl<E, H: Copy> ListHeader<E, H> {
    /// Works out how to draw the header.
    pub fn render(self, density: UiDensity) -> (ops: Vec<DrawOp<E, H>>)
        ensures
            op_views(ops@) == render_spec(self, density),
    {
        let mut ops: Vec<DrawOp<E, H>> = Vec::new();
        assert(op_views(ops@) =~= seq![]);
        push_op(&mut ops, DrawOp::Open(Container::HFlex));
        push_op(&mut ops, DrawOp::Id(self.label.clone()));
        push_op(&mut ops, DrawOp::Style(Style::WidthFull));
        push_op(&mut ops, DrawOp::Style(Style::Relative));
        push_op(&mut ops, DrawOp::Group(HEADER_GROUP.to_string()));
        let ghost begun = op_views(ops@);
        assert(begun =~= seq![DrawOpView::<E, H>::Open(Container::HFlex)] + header_style_ops::<
            E,
            H,
        >(self.label@));
        push_op(&mut ops, DrawOp::Open(Container::Div));
        push_row_style(&mut ops, self.inset, self.selected, density);
        push_near_side(&mut ops, self.label, self.start_slot, self.toggle, self.on_toggle);
        push_far_side(&mut ops, self.end_slot);
        push_hover(&mut ops, self.end_hover_slot);
        push_op(&mut ops, DrawOp::Close);
        proof {
            lemma_wrap(
                begun,
                Container::Div,
                row_style_ops::<E, H>(self.inset, self.selected, density),
                near_side_ops(self.label@, self.start_slot, self.toggle, self.on_toggle),
                far_side_ops::<E, H>(self.end_slot),
                hover_ops::<E, H>(self.end_hover_slot),
            );
        }
        push_op(&mut ops, DrawOp::Close);
        assert(op_views(ops@) =~= render_spec(self, density));
        ops
    }
}

/// Pieces that are put behind `begun` one after the other, between an opening and a
/// closing instruction, make up a container.
proof fn lemma_wrap<E, H>(
    begun: Seq<DrawOpView<E, H>>,
    container: Container,
    first: Seq<DrawOpView<E, H>>,
    second: Seq<DrawOpView<E, H>>,
    third: Seq<DrawOpView<E, H>>,
    fourth: Seq<DrawOpView<E, H>>,
)
    ensures
        (begun.push(DrawOpView::Open(container)) + first + second + third + fourth).push(
            DrawOpView::Close,
        ) == begun + contained(container, first + second + third + fourth),
{
    assert((begun.push(DrawOpView::Open(container)) + first + second + third + fourth).push(
        DrawOpView::Close,
    ) =~= begun + contained(container, first + second + third + fourth));
}

/// How many containers are open after the instructions.
pub open spec fn depth<E, H>(ops: Seq<DrawOpView<E, H>>) -> int
    decreases ops.len(),
{
    if ops.len() == 0 {
        0
    } else {
        depth(ops.drop_last()) + (match ops.last() {
            DrawOpView::Open(_) => 1int,
            DrawOpView::Close => -1int,
            _ => 0int,
        })
    }
}

/// Whether every container that is opened is closed, and nothing else is.
pub open spec fn is_balanced<E, H>(ops: Seq<DrawOpView<E, H>>) -> bool {
    &&& depth(ops) == 0
    &&& forall|i: int| 0 <= i <= ops.len() ==> depth(#[trigger] ops.take(i)) >= 0
}

proof fn lemma_depth_adds<E, H>(left: Seq<DrawOpView<E, H>>, right: Seq<DrawOpView<E, H>>)
    ensures
        depth(left + right) == depth(left) + depth(right),
    decreases right.len(),
{
    if right.len() == 0 {
        assert(left + right == left);
    } else {
        assert((left + right).drop_last() == left + right.drop_last());
        lemma_depth_adds(left, right.drop_last());
    }
}

proof fn lemma_balanced_adds<E, H>(left: Seq<DrawOpView<E, H>>, right: Seq<DrawOpView<E, H>>)
    requires
        is_balanced(left),
        is_balanced(right),
    ensures
        is_balanced(left + right),
{
    lemma_depth_adds(left, right);
    assert forall|i: int| 0 <= i <= (left + right).len() implies depth(
        #[trigger] (left + right).take(i),
    ) >= 0 by {
        if i <= left.len() {
            assert((left + right).take(i) == left.take(i));
        } else {
            assert((left + right).take(i) == left + right.take(i - left.len()));
            lemma_depth_adds(left, right.take(i - left.len()));
        }
    }
}

/// Instructions that open and close nothing are balanced.
proof fn lemma_flat_is_balanced<E, H>(ops: Seq<DrawOpView<E, H>>)
    requires
        forall|i: int|
            0 <= i < ops.len() ==> !(#[trigger] ops[i] is Open) && !(ops[i] is Close),
    ensures
        is_balanced(ops),
    decreases ops.len(),
{
    if ops.len() > 0 {
        let init = ops.drop_last();
        lemma_flat_is_balanced(init);
        assert forall|i: int| 0 <= i <= ops.len() implies depth(#[trigger] ops.take(i)) >= 0 by {
            if i < ops.len() {
                assert(ops.take(i) == init.take(i));
            } else {
                assert(ops.take(i) == ops);
            }
        }
    } else {
        assert forall|i: int| 0 <= i <= ops.len() implies depth(#[trigger] ops.take(i)) >= 0 by {
            assert(ops.take(i) == ops);
        }
    }
}

/// A container around balanced instructions is balanced.
proof fn lemma_container_is_balanced<E, H>(container: Container, inner: Seq<DrawOpView<E, H>>)
    requires
        is_balanced(inner),
    ensures
        is_balanced(contained(container, inner)),
{
    let open = seq![DrawOpView::<E, H>::Open(container)];
    let close = seq![DrawOpView::<E, H>::Close];
    let ops = open + inner + close;
    assert(open.drop_last().len() == 0);
    assert(close.drop_last().len() == 0);
    assert(depth(open.drop_last()) == 0);
    assert(depth(close.drop_last()) == 0);
    assert(depth(open) == 1);
    assert(depth(close) == -1);
    lemma_depth_adds(open, inner);
    lemma_depth_adds(open + inner, close);
    assert forall|i: int| 0 <= i <= ops.len() implies depth(#[trigger] ops.take(i)) >= 0 by {
        if i == 0 {
            assert(ops.take(i).len() == 0);
        } else if i <= 1 + inner.len() {
            assert(ops.take(i) == open + inner.take(i - 1));
            lemma_depth_adds(open, inner.take(i - 1));
        } else {
            assert(ops.take(i) == ops);
        }
    }
}

/// Whatever a header holds, every container that drawing it opens is closed
/// again.
pub proof fn render_is_balanced<E, H>(header: ListHeader<E, H>, density: UiDensity)
    ensures
        is_balanced(render_spec(header, density)),
{
    let header_style = header_style_ops::<E, H>(header.label@);
    let row = row_ops(header, density);
    assert(is_balanced(header_style)) by {
        lemma_flat_is_balanced(header_style);
    }
    lemma_row_is_balanced(header, density);
    lemma_balanced_adds(header_style, row);
    lemma_container_is_balanced(Container::HFlex, header_style + row);
}

proof fn lemma_row_is_balanced<E, H>(header: ListHeader<E, H>, density: UiDensity)
    ensures
        is_balanced(row_ops(header, density)),
{
    let style = row_style_ops::<E, H>(header.inset, header.selected, density);
    let near = near_side_ops(header.label@, header.start_slot, header.toggle, header.on_toggle);
    let far = far_side_ops::<E, H>(header.end_slot);
    let over = hover_ops::<E, H>(header.end_hover_slot);
    assert(is_balanced(style)) by {
        lemma_flat_is_balanced(style);
    }
    lemma_near_side_is_balanced(
        header.label@,
        header.start_slot,
        header.toggle,
        header.on_toggle,
    );
    assert(is_balanced(far)) by {
        lemma_flat_is_balanced(slot_ops::<E, H>(header.end_slot));
        lemma_container_is_balanced(Container::HFlex, slot_ops::<E, H>(header.end_slot));
    }
    lemma_hover_is_balanced::<E, H>(header.end_hover_slot);
    lemma_balanced_adds(style, near);
    lemma_balanced_adds(style + near, far);
    lemma_balanced_adds(style + near + far, over);
    lemma_container_is_balanced(Container::Div, style + near + far + over);
}

proof fn lemma_near_side_is_balanced<E, H>(
    label: Seq<char>,
    start_slot: Option<E>,
    toggle: Option<bool>,
    on_toggle: Option<H>,
)
    ensures
        is_balanced(near_side_ops(label, start_slot, toggle, on_toggle)),
{
    let disclosure = disclosure_ops::<E, H>(toggle, on_toggle);
    let inner = label_ops(label, start_slot, on_toggle);
    assert(is_balanced(inner)) by {
        lemma_flat_is_balanced(inner);
    }
    assert(is_balanced(disclosure)) by {
        lemma_flat_is_balanced(disclosure);
    }
    lemma_container_is_balanced(Container::Div, inner);
    lemma_balanced_adds(disclosure, contained(Container::Div, inner));
    lemma_container_is_balanced(Container::HFlex, disclosure + contained(Container::Div, inner));
}

proof fn lemma_hover_is_balanced<E, H>(end_hover_slot: Option<E>)
    ensures
        is_balanced(hover_ops::<E, H>(end_hover_slot)),
{
    match end_hover_slot {
        Some(element) => {
            let inner = seq![
                DrawOpView::<E, H>::Style(Style::Absolute),
                DrawOpView::Style(Style::Right0),
                DrawOpView::VisibleOnHover(HEADER_GROUP@),
                DrawOpView::Child(element),
            ];
            lemma_flat_is_balanced(inner);
            lemma_container_is_balanced(Container::Div, inner);
        },
        None => {
            lemma_flat_is_balanced(hover_ops::<E, H>(end_hover_slot));
        },
    }
}

/// What stands behind the label while the pointer is over the header is drawn
/// after what stands there otherwise, and so over it.
pub proof fn hover_slot_covers_end_slot<E, H>(
    header: ListHeader<E, H>,
    density: UiDensity,
    end: E,
    over: E,
)
    requires
        header.end_slot == Some(end),
        header.end_hover_slot == Some(over),
    ensures
        exists|i: int, j: int|
            0 <= i < j < render_spec(header, density).len() && #[trigger] render_spec(
                header,
                density,
            )[i] == DrawOpView::<E, H>::Child(end) && #[trigger] render_spec(header, density)[j]
                == DrawOpView::<E, H>::Child(over),
{
    let ops = render_spec(header, density);
    let count = ops.len() as int;
    // The last instructions are fixed: the child of the far side, its close, the
    // six of the cover, and the closes of the row and of the header.
    assert(ops[count - 4] == DrawOpView::<E, H>::Child(over));
    assert(ops[count - 10] == DrawOpView::<E, H>::Child(end));
}

/// What stands for an instruction is its content.
pub proof fn instructions_are_told_apart<E, H>(op: DrawOp<E, H>)
    ensures
        op matches DrawOp::Open(container) ==> op@ == DrawOpView::<E, H>::Open(container),
        op is Close ==> op@ is Close,
        op matches DrawOp::Id(id) ==> op@ == DrawOpView::<E, H>::Id(id@),
        op matches DrawOp::Style(style) ==> op@ == DrawOpView::<E, H>::Style(style),
        op matches DrawOp::Group(group) ==> op@ == DrawOpView::<E, H>::Group(group@),
        op matches DrawOp::VisibleOnHover(group) ==> op@ == DrawOpView::<E, H>::VisibleOnHover(
            group@,
        ),
        op matches DrawOp::OnClick(handler) ==> op@ == DrawOpView::<E, H>::OnClick(handler),
        op matches DrawOp::Child(element) ==> op@ == DrawOpView::<E, H>::Child(element),
        op matches DrawOp::Disclosure { id, is_open, on_toggle } ==> op@ == (DrawOpView::<
            E,
            H,
        >::Disclosure { id: id@, is_open, on_toggle }),
        op matches DrawOp::MutedLabel(text) ==> op@ == DrawOpView::<E, H>::MutedLabel(text@),
{
}

/// The arrow that is to be drawn: open exactly if the list is, and with the handler
/// of the header; none for a list that cannot be closed.
pub open spec fn arrow<E, H>(header: ListHeader<E, H>) -> Option<DrawOpView<E, H>> {
    match header.toggle {
        Some(open) => Some(
            DrawOpView::Disclosure { id: "toggle"@, is_open: open, on_toggle: header.on_toggle },
        ),
        None => None,
    }
}

/// How many of the instructions are of the kind that is meant.
pub open spec fn how_many<E, H>(
    ops: Seq<DrawOpView<E, H>>,
    is_meant: spec_fn(DrawOpView<E, H>) -> bool,
) -> int
    decreases ops.len(),
{
    if ops.len() == 0 {
        0
    } else {
        how_many(ops.drop_last(), is_meant) + if is_meant(ops.last()) {
            1int
        } else {
            0int
        }
    }
}

/// Only this instruction is meant.
pub open spec fn just<E, H>(op: DrawOpView<E, H>) -> spec_fn(DrawOpView<E, H>) -> bool {
    |other: DrawOpView<E, H>| other == op
}

/// How many instructions are this one.
pub open spec fn how_often<E, H>(ops: Seq<DrawOpView<E, H>>, op: DrawOpView<E, H>) -> int {
    how_many(ops, just(op))
}

/// One if something holds, else none.
pub open spec fn one_if(holds: bool) -> int {
    if holds {
        1
    } else {
        0
    }
}

proof fn lemma_count_adds<E, H>(
    left: Seq<DrawOpView<E, H>>,
    right: Seq<DrawOpView<E, H>>,
    is_meant: spec_fn(DrawOpView<E, H>) -> bool,
)
    ensures
        how_many(left + right, is_meant) == how_many(left, is_meant) + how_many(right, is_meant),
    decreases right.len(),
{
    if right.len() == 0 {
        assert(left + right == left);
    } else {
        assert((left + right).drop_last() == left + right.drop_last());
        lemma_count_adds(left, right.drop_last(), is_meant);
    }
}

proof fn lemma_count_next<E, H>(
    ops: Seq<DrawOpView<E, H>>,
    count: int,
    is_meant: spec_fn(DrawOpView<E, H>) -> bool,
)
    requires
        0 <= count < ops.len(),
    ensures
        how_many(ops.take(count + 1), is_meant) == how_many(ops.take(count), is_meant) + one_if(
            is_meant(ops[count]),
        ),
{
    assert(ops.take(count + 1).drop_last() == ops.take(count));
}

/// The number of those that are meant among a few instructions.
proof fn lemma_count_few<E, H>(
    ops: Seq<DrawOpView<E, H>>,
    is_meant: spec_fn(DrawOpView<E, H>) -> bool,
)
    ensures
        ops.len() == 0 ==> how_many(ops, is_meant) == 0,
        ops.len() == 1 ==> how_many(ops, is_meant) == one_if(is_meant(ops[0])),
        ops.len() == 4 ==> how_many(ops, is_meant) == one_if(is_meant(ops[0])) + one_if(
            is_meant(ops[1]),
        ) + one_if(is_meant(ops[2])) + one_if(is_meant(ops[3])),
        ops.len() == 6 ==> how_many(ops, is_meant) == one_if(is_meant(ops[0])) + one_if(
            is_meant(ops[1]),
        ) + one_if(is_meant(ops[2])) + one_if(is_meant(ops[3])) + one_if(is_meant(ops[4]))
            + one_if(is_meant(ops[5])),
{
    assert(ops.take(ops.len() as int) == ops);
    assert(how_many(ops.take(0), is_meant) == 0);
    if ops.len() >= 1 {
        lemma_count_next(ops, 0, is_meant);
    }
    if ops.len() >= 4 {
        lemma_count_next(ops, 1, is_meant);
        lemma_count_next(ops, 2, is_meant);
        lemma_count_next(ops, 3, is_meant);
    }
    if ops.len() >= 6 {
        lemma_count_next(ops, 4, is_meant);
        lemma_count_next(ops, 5, is_meant);
    }
}

proof fn lemma_count_contained<E, H>(
    container: Container,
    inner: Seq<DrawOpView<E, H>>,
    is_meant: spec_fn(DrawOpView<E, H>) -> bool,
)
    ensures
        how_many(contained(container, inner), is_meant) == one_if(
            is_meant(DrawOpView::Open(container)),
        ) + how_many(inner, is_meant) + one_if(is_meant(DrawOpView::Close)),
{
    let open = seq![DrawOpView::<E, H>::Open(container)];
    let close = seq![DrawOpView::<E, H>::Close];
    lemma_count_few(open, is_meant);
    lemma_count_few(close, is_meant);
    lemma_count_adds(open, inner, is_meant);
    lemma_count_adds(open + inner, close, is_meant);
}

/// How many of those that are meant the label and what stands around it make up.
spec fn count_of_label<E, H>(
    header: ListHeader<E, H>,
    is_meant: spec_fn(DrawOpView<E, H>) -> bool,
) -> int {
    one_if(is_meant(DrawOpView::Id("label_container"@))) + one_if(
        is_meant(DrawOpView::Style(Style::Flex)),
    ) + one_if(is_meant(DrawOpView::Style(Style::GapBase04))) + one_if(
        is_meant(DrawOpView::Style(Style::ItemsCenter)),
    ) + one_if(header.start_slot is Some && is_meant(DrawOpView::Child(header.start_slot->0)))
        + one_if(is_meant(DrawOpView::MutedLabel(header.label@))) + one_if(
        header.on_toggle is Some && is_meant(DrawOpView::OnClick(header.on_toggle->0)),
    )
}

proof fn lemma_count_label<E, H>(
    header: ListHeader<E, H>,
    is_meant: spec_fn(DrawOpView<E, H>) -> bool,
)
    ensures
        how_many(label_ops(header.label@, header.start_slot, header.on_toggle), is_meant)
            == count_of_label(header, is_meant),
{
    let looks = seq![
        DrawOpView::<E, H>::Id(LABEL_CONTAINER_ID@),
        DrawOpView::Style(Style::Flex),
        DrawOpView::Style(Style::GapBase04),
        DrawOpView::Style(Style::ItemsCenter),
    ];
    let start = slot_ops::<E, H>(header.start_slot);
    let label = seq![DrawOpView::<E, H>::MutedLabel(header.label@)];
    let clicked = match header.on_toggle {
        Some(handler) => seq![DrawOpView::<E, H>::OnClick(handler)],
        None => seq![],
    };
    lemma_count_few(looks, is_meant);
    lemma_count_few(start, is_meant);
    lemma_count_few(label, is_meant);
    lemma_count_few(clicked, is_meant);
    lemma_count_adds(looks, start, is_meant);
    lemma_count_adds(looks + start, label, is_meant);
    lemma_count_adds(looks + start + label, clicked, is_meant);
}

proof fn lemma_count_near_side<E, H>(
    header: ListHeader<E, H>,
    is_meant: spec_fn(DrawOpView<E, H>) -> bool,
)
    ensures
        how_many(
            near_side_ops(header.label@, header.start_slot, header.toggle, header.on_toggle),
            is_meant,
        ) == one_if(is_meant(DrawOpView::Open(Container::HFlex))) + one_if(
            is_meant(DrawOpView::Style(Style::GapBase04)),
        ) + one_if(arrow(header) is Some && is_meant(arrow(header)->0)) + one_if(
            is_meant(DrawOpView::Open(Container::Div)),
        ) + count_of_label(header, is_meant) + 2 * one_if(is_meant(DrawOpView::Close)),
{
    let inner = label_ops(header.label@, header.start_slot, header.on_toggle);
    let gap = seq![DrawOpView::<E, H>::Style(Style::GapBase04)];
    let shown = match header.toggle {
        Some(is_open) => seq![
            DrawOpView::<E, H>::Disclosure {
                id: DISCLOSURE_ID@,
                is_open,
                on_toggle: header.on_toggle,
            },
        ],
        None => seq![],
    };
    lemma_count_label(header, is_meant);
    lemma_count_contained(Container::Div, inner, is_meant);
    lemma_count_few(gap, is_meant);
    lemma_count_few(shown, is_meant);
    lemma_count_adds(gap, shown, is_meant);
    lemma_count_adds(gap + shown, contained(Container::Div, inner), is_meant);
    lemma_count_contained(
        Container::HFlex,
        gap + shown + contained(Container::Div, inner),
        is_meant,
    );
}

proof fn lemma_count_far_side<E, H>(
    header: ListHeader<E, H>,
    is_meant: spec_fn(DrawOpView<E, H>) -> bool,
)
    ensures
        how_many(far_side_ops::<E, H>(header.end_slot), is_meant) == one_if(
            is_meant(DrawOpView::Open(Container::HFlex)),
        ) + one_if(header.end_slot is Some && is_meant(DrawOpView::Child(header.end_slot->0)))
            + one_if(is_meant(DrawOpView::Close)),
        header.end_hover_slot is None ==> how_many(
            hover_ops::<E, H>(header.end_hover_slot),
            is_meant,
        ) == 0,
        header.end_hover_slot is Some ==> how_many(
            hover_ops::<E, H>(header.end_hover_slot),
            is_meant,
        ) == one_if(is_meant(DrawOpView::Open(Container::Div))) + one_if(
            is_meant(DrawOpView::Style(Style::Absolute)),
        ) + one_if(is_meant(DrawOpView::Style(Style::Right0))) + one_if(
            is_meant(DrawOpView::VisibleOnHover("list_header"@)),
        ) + one_if(is_meant(DrawOpView::Child(header.end_hover_slot->0))) + one_if(
            is_meant(DrawOpView::Close),
        ),
{
    let end = slot_ops::<E, H>(header.end_slot);
    lemma_count_few(end, is_meant);
    lemma_count_contained(Container::HFlex, end, is_meant);
    match header.end_hover_slot {
        Some(over) => {
            let inner = seq![
                DrawOpView::<E, H>::Style(Style::Absolute),
                DrawOpView::Style(Style::Right0),
                DrawOpView::VisibleOnHover(HEADER_GROUP@),
                DrawOpView::Child(over),
            ];
            lemma_count_few(inner, is_meant);
            lemma_count_contained(Container::Div, inner, is_meant);
        },
        None => {
            lemma_count_few(hover_ops::<E, H>(header.end_hover_slot), is_meant);
        },
    }
}

/// How many of those that are meant the looks of a header make up.
spec fn count_of_looks<E, H>(
    header: ListHeader<E, H>,
    density: UiDensity,
    is_meant: spec_fn(DrawOpView<E, H>) -> bool,
) -> int {
    one_if(is_meant(DrawOpView::Id(header.label@))) + 2 * one_if(
        is_meant(DrawOpView::Style(Style::WidthFull)),
    ) + one_if(is_meant(DrawOpView::Style(Style::Relative))) + one_if(
        is_meant(DrawOpView::Group("list_header"@)),
    ) + one_if(
        is_meant(
            DrawOpView::Style(
                Style::Height(
                    if density == UiDensity::Comfortable {
                        5
                    } else {
                        7
                    },
                ),
            ),
        ),
    ) + one_if(header.inset && is_meant(DrawOpView::Style(Style::PaddingX(2)))) + one_if(
        header.selected && is_meant(DrawOpView::Style(Style::GhostElementSelected)),
    ) + one_if(is_meant(DrawOpView::Style(Style::Flex))) + one_if(
        is_meant(DrawOpView::Style(Style::Flex1)),
    ) + one_if(is_meant(DrawOpView::Style(Style::ItemsCenter))) + one_if(
        is_meant(DrawOpView::Style(Style::JustifyBetween)),
    ) + one_if(is_meant(DrawOpView::Style(Style::GapBase04)))
}

proof fn lemma_count_looks<E, H>(
    header: ListHeader<E, H>,
    density: UiDensity,
    is_meant: spec_fn(DrawOpView<E, H>) -> bool,
)
    ensures
        how_many(header_style_ops::<E, H>(header.label@), is_meant) + how_many(
            row_style_ops::<E, H>(header.inset, header.selected, density),
            is_meant,
        ) == count_of_looks(header, density, is_meant),
{
    let height = seq![DrawOpView::<E, H>::Style(Style::Height(header_height(density)))];
    let padding = style_ops::<E, H>(header.inset, Style::PaddingX(2));
    let background = style_ops::<E, H>(header.selected, Style::GhostElementSelected);
    let looks = seq![
        DrawOpView::<E, H>::Style(Style::Flex),
        DrawOpView::Style(Style::Flex1),
        DrawOpView::Style(Style::ItemsCenter),
        DrawOpView::Style(Style::JustifyBetween),
        DrawOpView::Style(Style::WidthFull),
        DrawOpView::Style(Style::GapBase04),
    ];
    lemma_count_few(header_style_ops::<E, H>(header.label@), is_meant);
    lemma_count_few(height, is_meant);
    lemma_count_few(padding, is_meant);
    lemma_count_few(background, is_meant);
    lemma_count_few(looks, is_meant);
    lemma_count_adds(height, padding, is_meant);
    lemma_count_adds(height + padding, background, is_meant);
    lemma_count_adds(height + padding + background, looks, is_meant);
}

/// How many of those that are meant a whole header is drawn with.
proof fn lemma_count_rendered<E, H>(
    header: ListHeader<E, H>,
    density: UiDensity,
    is_meant: spec_fn(DrawOpView<E, H>) -> bool,
)
    ensures
        how_many(render_spec(header, density), is_meant) == count_of_looks(
            header,
            density,
            is_meant,
        ) + count_of_label(header, is_meant) + one_if(
            is_meant(DrawOpView::Style(Style::GapBase04)),
        ) + one_if(arrow(header) is Some && is_meant(arrow(header)->0)) + one_if(
            header.end_slot is Some && is_meant(DrawOpView::Child(header.end_slot->0)),
        ) + 3 * one_if(is_meant(DrawOpView::Open(Container::HFlex))) + 2 * one_if(
            is_meant(DrawOpView::Open(Container::Div)),
        ) + 5 * one_if(is_meant(DrawOpView::Close)) + if header.end_hover_slot is Some {
            one_if(is_meant(DrawOpView::Open(Container::Div))) + one_if(
                is_meant(DrawOpView::Style(Style::Absolute)),
            ) + one_if(is_meant(DrawOpView::Style(Style::Right0))) + one_if(
                is_meant(DrawOpView::VisibleOnHover("list_header"@)),
            ) + one_if(is_meant(DrawOpView::Child(header.end_hover_slot->0))) + one_if(
                is_meant(DrawOpView::Close),
            )
        } else {
            0
        },
{
    let head = header_style_ops::<E, H>(header.label@);
    let style = row_style_ops::<E, H>(header.inset, header.selected, density);
    let near = near_side_ops(header.label@, header.start_slot, header.toggle, header.on_toggle);
    let far = far_side_ops::<E, H>(header.end_slot);
    let over = hover_ops::<E, H>(header.end_hover_slot);
    lemma_count_looks(header, density, is_meant);
    lemma_count_near_side(header, is_meant);
    lemma_count_far_side(header, is_meant);
    lemma_count_adds(style, near, is_meant);
    lemma_count_adds(style + near, far, is_meant);
    lemma_count_adds(style + near + far, over, is_meant);
    lemma_count_contained(Container::Div, style + near + far + over, is_meant);
    lemma_count_adds(head, row_ops(header, density), is_meant);
    lemma_count_contained(Container::HFlex, head + row_ops(header, density), is_meant);
}

proof fn lemma_count_finds<E, H>(
    ops: Seq<DrawOpView<E, H>>,
    is_meant: spec_fn(DrawOpView<E, H>) -> bool,
)
    ensures
        how_many(ops, is_meant) >= 0,
        how_many(ops, is_meant) > 0 <==> exists|i: int|
            0 <= i < ops.len() && is_meant(#[trigger] ops[i]),
    decreases ops.len(),
{
    if ops.len() > 0 {
        let init = ops.drop_last();
        lemma_count_finds(init, is_meant);
        if how_many(init, is_meant) > 0 {
            let i = choose|i: int| 0 <= i < init.len() && is_meant(#[trigger] init[i]);
            assert(ops[i] == init[i]);
        }
        if is_meant(ops.last()) {
            assert(is_meant(ops[ops.len() - 1]));
        }
        if exists|i: int| 0 <= i < ops.len() && is_meant(#[trigger] ops[i]) {
            let i = choose|i: int| 0 <= i < ops.len() && is_meant(#[trigger] ops[i]);
            if i < init.len() {
                assert(init[i] == ops[i]);
            }
        }
    }
}

/// A list that can be closed has exactly one arrow in its header, which is open
/// exactly if the list is and calls what the header calls. Any other list has none.
pub proof fn arrow_shows_whether_open<E, H: Copy>(
    header: ListHeader<E, H>,
    density: UiDensity,
    ops: Vec<DrawOp<E, H>>,
)
    requires
        call_ensures(ListHeader::<E, H>::render, (header, density), ops),
    ensures
        how_many(op_views(ops@), |op: DrawOpView<E, H>| op is Disclosure) == one_if(
            header.toggle is Some,
        ),
        header.toggle is None ==> forall|i: int|
            0 <= i < ops@.len() ==> !(#[trigger] ops@[i] is Disclosure),
        header.toggle matches Some(open) ==> exists|i: int|
            0 <= i < ops@.len() && (#[trigger] ops@[i] matches DrawOp::Disclosure {
                id,
                is_open,
                on_toggle,
            } && id@ == "toggle"@ && is_open == open && on_toggle == header.on_toggle),
{
    let is_arrow = |op: DrawOpView<E, H>| op is Disclosure;
    let views = op_views(ops@);
    lemma_count_rendered(header, density, is_arrow);
    lemma_count_finds(views, is_arrow);
    assert forall|i: int| header.toggle is None && 0 <= i < ops@.len() implies !(
    #[trigger] ops@[i] is Disclosure) by {
        assert(views[i] == ops@[i]@);
        assert(!is_arrow(views[i]));
    }
    if header.toggle is Some {
        let is_right = |op: DrawOpView<E, H>| op == arrow(header)->0;
        lemma_count_rendered(header, density, is_right);
        lemma_count_finds(views, is_right);
        let i = choose|i: int| 0 <= i < views.len() && is_right(#[trigger] views[i]);
        assert(views[i] == ops@[i]@);
    }
}

/// The label of a header is drawn once, and nothing else is drawn as a label. A
/// click on it calls what the header calls, once, and nothing if it calls nothing.
pub proof fn label_is_drawn_once<E, H: Copy>(
    header: ListHeader<E, H>,
    density: UiDensity,
    ops: Vec<DrawOp<E, H>>,
)
    requires
        call_ensures(ListHeader::<E, H>::render, (header, density), ops),
    ensures
        how_many(op_views(ops@), |op: DrawOpView<E, H>| op is MutedLabel) == 1,
        how_often(op_views(ops@), DrawOpView::MutedLabel(header.label@)) == 1,
        how_many(op_views(ops@), |op: DrawOpView<E, H>| op is OnClick) == one_if(
            header.on_toggle is Some,
        ),
        header.on_toggle matches Some(handler) ==> how_often(
            op_views(ops@),
            DrawOpView::OnClick(handler),
        ) == 1,
{
    lemma_count_rendered(header, density, |op: DrawOpView<E, H>| op is MutedLabel);
    lemma_count_rendered(
        header,
        density,
        just(DrawOpView::<E, H>::MutedLabel(header.label@)),
    );
    lemma_count_rendered(header, density, |op: DrawOpView<E, H>| op is OnClick);
    if header.on_toggle is Some {
        lemma_count_rendered(
            header,
            density,
            just(DrawOpView::<E, H>::OnClick(header.on_toggle->0)),
        );
    }
}

/// Each element is drawn as often as it stands in a slot, and no other element is
/// drawn.
pub proof fn slots_are_drawn<E, H: Copy>(
    header: ListHeader<E, H>,
    density: UiDensity,
    ops: Vec<DrawOp<E, H>>,
    element: E,
)
    requires
        call_ensures(ListHeader::<E, H>::render, (header, density), ops),
    ensures
        how_often(op_views(ops@), DrawOpView::Child(element)) == one_if(
            header.start_slot == Some(element),
        ) + one_if(header.end_slot == Some(element)) + one_if(
            header.end_hover_slot == Some(element),
        ),
        how_many(op_views(ops@), |op: DrawOpView<E, H>| op is Child) == one_if(
            header.start_slot is Some,
        ) + one_if(header.end_slot is Some) + one_if(header.end_hover_slot is Some),
{
    lemma_count_rendered(
        header,
        density,
        just(DrawOpView::<E, H>::Child(element)),
    );
    lemma_count_rendered(header, density, |op: DrawOpView<E, H>| op is Child);
}

/// A header is known by its label, and the container of the label by its own name.
/// The header is one group, and only what covers its far side waits for the pointer
/// to be over this group.
pub proof fn parts_are_known_by_name<E, H: Copy>(
    header: ListHeader<E, H>,
    density: UiDensity,
    ops: Vec<DrawOp<E, H>>,
    name: Seq<char>,
)
    requires
        call_ensures(ListHeader::<E, H>::render, (header, density), ops),
    ensures
        how_often(op_views(ops@), DrawOpView::Id(name)) == one_if(name == header.label@) + one_if(
            name == "label_container"@,
        ),
        how_often(op_views(ops@), DrawOpView::Group(name)) == one_if(name == "list_header"@),
        how_often(op_views(ops@), DrawOpView::VisibleOnHover(name)) == one_if(
            header.end_hover_slot is Some && name == "list_header"@,
        ),
{
    lemma_count_rendered(
        header,
        density,
        just(DrawOpView::<E, H>::Id(name)),
    );
    lemma_count_rendered(
        header,
        density,
        just(DrawOpView::<E, H>::Group(name)),
    );
    lemma_count_rendered(
        header,
        density,
        just(DrawOpView::<E, H>::VisibleOnHover(name)),
    );
}

/// A header has one height, lower where the interface is comfortable. It is padded
/// exactly if it is inset, and has a background exactly if it is selected. Its other
/// looks depend on nothing but on whether something covers its far side.
pub proof fn looks_follow_header<E, H: Copy>(
    header: ListHeader<E, H>,
    density: UiDensity,
    ops: Vec<DrawOp<E, H>>,
    style: Style,
)
    requires
        call_ensures(ListHeader::<E, H>::render, (header, density), ops),
    ensures
        how_often(op_views(ops@), DrawOpView::Style(style)) == match style {
            Style::Height(height) => one_if(
                height == if density == UiDensity::Comfortable {
                    5
                } else {
                    7int
                },
            ),
            Style::PaddingX(padding) => one_if(header.inset && padding == 2),
            Style::GhostElementSelected => one_if(header.selected),
            Style::Absolute => one_if(header.end_hover_slot is Some),
            Style::Right0 => one_if(header.end_hover_slot is Some),
            Style::GapBase04 => 3,
            Style::Flex => 2,
            Style::ItemsCenter => 2,
            Style::WidthFull => 2,
            Style::Flex1 => 1,
            Style::JustifyBetween => 1,
            Style::Relative => 1,
        },
{
    lemma_count_rendered(
        header,
        density,
        just(DrawOpView::<E, H>::Style(style)),
    );
}

/// A header is made of three rows and of two other containers, and of one more where
/// something covers its far side.
pub proof fn containers_follow_header<E, H: Copy>(
    header: ListHeader<E, H>,
    density: UiDensity,
    ops: Vec<DrawOp<E, H>>,
)
    requires
        call_ensures(ListHeader::<E, H>::render, (header, density), ops),
    ensures
        how_often(op_views(ops@), DrawOpView::Open(Container::HFlex)) == 3,
        how_often(op_views(ops@), DrawOpView::Open(Container::Div)) == 2 + one_if(
            header.end_hover_slot is Some,
        ),
        is_balanced(op_views(ops@)),
{
    lemma_count_rendered(
        header,
        density,
        just(DrawOpView::<E, H>::Open(Container::HFlex)),
    );
    lemma_count_rendered(
        header,
        density,
        just(DrawOpView::<E, H>::Open(Container::Div)),
    );
    render_is_balanced(header, density);
}

/// Whether instructions stand among others, without a gap.
pub open spec fn stands_in<E, H>(
    part: Seq<DrawOpView<E, H>>,
    whole: Seq<DrawOpView<E, H>>,
) -> bool {
    exists|before: Seq<DrawOpView<E, H>>, behind: Seq<DrawOpView<E, H>>|
        whole == #[trigger] (before + part + behind)
}

proof fn lemma_stands_in_sum<E, H>(
    before: Seq<DrawOpView<E, H>>,
    part: Seq<DrawOpView<E, H>>,
    behind: Seq<DrawOpView<E, H>>,
)
    ensures
        stands_in(part, before + part + behind),
{
}

proof fn lemma_stands_in_part<E, H>(
    part: Seq<DrawOpView<E, H>>,
    between: Seq<DrawOpView<E, H>>,
    whole: Seq<DrawOpView<E, H>>,
)
    requires
        stands_in(part, between),
        stands_in(between, whole),
    ensures
        stands_in(part, whole),
{
    let (a, b) = choose|a: Seq<DrawOpView<E, H>>, b: Seq<DrawOpView<E, H>>|
        between == #[trigger] (a + part + b);
    let (c, d) = choose|c: Seq<DrawOpView<E, H>>, d: Seq<DrawOpView<E, H>>|
        whole == #[trigger] (c + between + d);
    assert(whole == (c + a) + part + (b + d));
}

proof fn lemma_near_side_stands_in<E, H>(header: ListHeader<E, H>, density: UiDensity)
    ensures
        stands_in(
            near_side_ops(header.label@, header.start_slot, header.toggle, header.on_toggle),
            render_spec(header, density),
        ),
{
    let head = header_style_ops::<E, H>(header.label@);
    let style = row_style_ops::<E, H>(header.inset, header.selected, density);
    let near = near_side_ops(header.label@, header.start_slot, header.toggle, header.on_toggle);
    let far = far_side_ops::<E, H>(header.end_slot);
    let over = hover_ops::<E, H>(header.end_hover_slot);
    let row = row_ops(header, density);
    let inner = style + near + far + over;
    lemma_stands_in_sum(style, near, far + over);
    assert(style + near + (far + over) == inner);
    lemma_stands_in_sum(
        seq![DrawOpView::<E, H>::Open(Container::Div)],
        inner,
        seq![DrawOpView::<E, H>::Close],
    );
    lemma_stands_in_part(near, inner, row);
    lemma_stands_in_sum(head, row, seq![]);
    assert(head + row + Seq::<DrawOpView<E, H>>::empty() == head + row);
    lemma_stands_in_part(near, row, head + row);
    lemma_stands_in_sum(
        seq![DrawOpView::<E, H>::Open(Container::HFlex)],
        head + row,
        seq![DrawOpView::<E, H>::Close],
    );
    lemma_stands_in_part(near, head + row, render_spec(header, density));
}

/// The arrow, where there is one, stands directly before the container of the label,
/// in the same row.
pub proof fn arrow_stands_before_label<E, H: Copy>(
    header: ListHeader<E, H>,
    density: UiDensity,
    ops: Vec<DrawOp<E, H>>,
)
    requires
        call_ensures(ListHeader::<E, H>::render, (header, density), ops),
    ensures
        header.toggle matches Some(open) ==> stands_in(
            seq![
                DrawOpView::<E, H>::Open(Container::HFlex),
                DrawOpView::Style(Style::GapBase04),
                DrawOpView::Disclosure {
                    id: "toggle"@,
                    is_open: open,
                    on_toggle: header.on_toggle,
                },
                DrawOpView::Open(Container::Div),
                DrawOpView::Id("label_container"@),
            ],
            op_views(ops@),
        ),
        header.toggle is None ==> stands_in(
            seq![
                DrawOpView::<E, H>::Open(Container::HFlex),
                DrawOpView::Style(Style::GapBase04),
                DrawOpView::Open(Container::Div),
                DrawOpView::Id("label_container"@),
            ],
            op_views(ops@),
        ),
{
    let near = near_side_ops(header.label@, header.start_slot, header.toggle, header.on_toggle);
    lemma_near_side_stands_in(header, density);
    match header.toggle {
        Some(open) => {
            let part = seq![
                DrawOpView::<E, H>::Open(Container::HFlex),
                DrawOpView::Style(Style::GapBase04),
                DrawOpView::Disclosure {
                    id: "toggle"@,
                    is_open: open,
                    on_toggle: header.on_toggle,
                },
                DrawOpView::Open(Container::Div),
                DrawOpView::Id("label_container"@),
            ];
            assert(near.take(5) == part);
            assert(near == Seq::<DrawOpView<E, H>>::empty() + part + near.skip(5));
            assert(stands_in(part, near));
            lemma_stands_in_part(part, near, render_spec(header, density));
        },
        None => {
            let part = seq![
                DrawOpView::<E, H>::Open(Container::HFlex),
                DrawOpView::Style(Style::GapBase04),
                DrawOpView::Open(Container::Div),
                DrawOpView::Id("label_container"@),
            ];
            assert(near.take(4) == part);
            assert(near == Seq::<DrawOpView<E, H>>::empty() + part + near.skip(4));
            assert(stands_in(part, near));
            lemma_stands_in_part(part, near, render_spec(header, density));
        },
    }
}

/// In the container of the label stands first what belongs before the label, then
/// the label, and then what a click on them calls.
pub proof fn label_stands_behind_start_slot<E, H: Copy>(
    header: ListHeader<E, H>,
    density: UiDensity,
    ops: Vec<DrawOp<E, H>>,
)
    requires
        call_ensures(ListHeader::<E, H>::render, (header, density), ops),
    ensures
        stands_in(
            seq![DrawOpView::<E, H>::Id("label_container"@)] + seq![
                DrawOpView::<E, H>::Style(Style::Flex),
            ] + seq![DrawOpView::<E, H>::Style(Style::GapBase04)] + seq![
                DrawOpView::<E, H>::Style(Style::ItemsCenter),
            ] + (match header.start_slot {
                Some(element) => seq![DrawOpView::<E, H>::Child(element)],
                None => seq![],
            }) + seq![DrawOpView::<E, H>::MutedLabel(header.label@)] + (match header.on_toggle {
                Some(handler) => seq![DrawOpView::<E, H>::OnClick(handler)],
                None => seq![],
            }) + seq![DrawOpView::<E, H>::Close],
            op_views(ops@),
        ),
{
    let near = near_side_ops(header.label@, header.start_slot, header.toggle, header.on_toggle);
    let inner = label_ops(header.label@, header.start_slot, header.on_toggle);
    let open = seq![DrawOpView::<E, H>::Open(Container::Div)];
    let close = seq![DrawOpView::<E, H>::Close];
    let disclosure = disclosure_ops::<E, H>(header.toggle, header.on_toggle);
    let labelled = contained(Container::Div, inner);
    let row = disclosure + labelled;
    let part = seq![DrawOpView::<E, H>::Id("label_container"@)] + seq![
        DrawOpView::<E, H>::Style(Style::Flex),
    ] + seq![DrawOpView::<E, H>::Style(Style::GapBase04)] + seq![
        DrawOpView::<E, H>::Style(Style::ItemsCenter),
    ] + (match header.start_slot {
        Some(element) => seq![DrawOpView::<E, H>::Child(element)],
        None => seq![],
    }) + seq![DrawOpView::<E, H>::MutedLabel(header.label@)] + (match header.on_toggle {
        Some(handler) => seq![DrawOpView::<E, H>::OnClick(handler)],
        None => seq![],
    }) + close;
    lemma_label_part(header, part);
    lemma_stands_in_sum(open, part, seq![]);
    assert(open + (inner + close) + Seq::<DrawOpView<E, H>>::empty() == labelled);
    lemma_stands_in_sum(disclosure, labelled, seq![]);
    assert(disclosure + labelled + Seq::<DrawOpView<E, H>>::empty() == row);
    lemma_stands_in_part(part, labelled, row);
    lemma_stands_in_sum(seq![DrawOpView::<E, H>::Open(Container::HFlex)], row, close);
    lemma_stands_in_part(part, row, near);
    lemma_near_side_stands_in(header, density);
    lemma_stands_in_part(part, near, render_spec(header, density));
}

proof fn lemma_label_part<E, H>(header: ListHeader<E, H>, part: Seq<DrawOpView<E, H>>)
    requires
        part == seq![DrawOpView::<E, H>::Id("label_container"@)] + seq![
            DrawOpView::<E, H>::Style(Style::Flex),
        ] + seq![DrawOpView::<E, H>::Style(Style::GapBase04)] + seq![
            DrawOpView::<E, H>::Style(Style::ItemsCenter),
        ] + (match header.start_slot {
            Some(element) => seq![DrawOpView::<E, H>::Child(element)],
            None => seq![],
        }) + seq![DrawOpView::<E, H>::MutedLabel(header.label@)] + (match header.on_toggle {
            Some(handler) => seq![DrawOpView::<E, H>::OnClick(handler)],
            None => seq![],
        }) + seq![DrawOpView::<E, H>::Close],
    ensures
        part == label_ops(header.label@, header.start_slot, header.on_toggle) + seq![
            DrawOpView::<E, H>::Close,
        ],
{
    let looks = seq![
        DrawOpView::<E, H>::Id(LABEL_CONTAINER_ID@),
        DrawOpView::Style(Style::Flex),
        DrawOpView::Style(Style::GapBase04),
        DrawOpView::Style(Style::ItemsCenter),
    ];
    assert(looks =~= seq![DrawOpView::<E, H>::Id("label_container"@)] + seq![
        DrawOpView::<E, H>::Style(Style::Flex),
    ] + seq![DrawOpView::<E, H>::Style(Style::GapBase04)] + seq![
        DrawOpView::<E, H>::Style(Style::ItemsCenter),
    ]);
}

/// Each setter of a header sets what it is named after, to what it is given, and
/// leaves everything else as it is. A new header has its label and nothing else.
pub proof fn setters_set_one_thing<E, H: Copy>(
    label: String,
    fresh: ListHeader<E, H>,
    header: ListHeader<E, H>,
    toggle: Option<bool>,
    toggled: ListHeader<E, H>,
    on_toggle: H,
    handled: ListHeader<E, H>,
    flags: (bool, bool),
    inset: ListHeader<E, H>,
    selected: ListHeader<E, H>,
)
    requires
        call_ensures(ListHeader::<E, H>::new, (label,), fresh),
        call_ensures(ListHeader::<E, H>::toggle, (header, toggle), toggled),
        call_ensures(ListHeader::<E, H>::on_toggle, (header, on_toggle), handled),
        call_ensures(ListHeader::<E, H>::inset, (header, flags.0), inset),
        call_ensures(ListHeader::<E, H>::toggle_state, (header, flags.1), selected),
    ensures
        fresh.label == label,
        fresh.toggle is None && fresh.on_toggle is None,
        fresh.start_slot is None && fresh.end_slot is None && fresh.end_hover_slot is None,
        !fresh.inset && !fresh.selected,
        toggled.toggle == toggle,
        has_same_slots(toggled, header),
        toggled.on_toggle == header.on_toggle,
        toggled.inset == header.inset && toggled.selected == header.selected,
        handled.on_toggle == Some(on_toggle),
        has_same_slots(handled, header),
        handled.toggle == header.toggle,
        handled.inset == header.inset && handled.selected == header.selected,
        inset.inset == flags.0,
        has_same_slots(inset, header),
        inset.toggle == header.toggle && inset.on_toggle == header.on_toggle,
        inset.selected == header.selected,
        selected.selected == flags.1,
        has_same_slots(selected, header),
        selected.toggle == header.toggle && selected.on_toggle == header.on_toggle,
        selected.inset == header.inset,
{
}

/// Whether two headers have the same label and the same elements in their slots.
pub open spec fn has_same_slots<E, H>(left: ListHeader<E, H>, right: ListHeader<E, H>) -> bool {
    &&& left.label == right.label
    &&& left.start_slot == right.start_slot
    &&& left.end_slot == right.end_slot
    &&& left.end_hover_slot == right.end_hover_slot
}

/// Whether two headers are the same but for their slots.
pub open spec fn has_same_state<E, H>(left: ListHeader<E, H>, right: ListHeader<E, H>) -> bool {
    &&& left.label == right.label
    &&& left.toggle == right.toggle
    &&& left.on_toggle == right.on_toggle
    &&& left.inset == right.inset
    &&& left.selected == right.selected
}

/// Each setter of a slot fills or empties this slot, and leaves everything else as
/// it is.
pub proof fn slot_setters_set_one_slot<E, H: Copy>(
    header: ListHeader<E, H>,
    slot: Option<E>,
    started: ListHeader<E, H>,
    ended: ListHeader<E, H>,
    covered: ListHeader<E, H>,
)
    requires
        call_ensures(ListHeader::<E, H>::start_slot, (header, slot), started),
        call_ensures(ListHeader::<E, H>::end_slot, (header, slot), ended),
        call_ensures(ListHeader::<E, H>::end_hover_slot, (header, slot), covered),
    ensures
        started.start_slot == slot,
        started.end_slot == header.end_slot && started.end_hover_slot == header.end_hover_slot,
        has_same_state(started, header),
        ended.end_slot == slot,
        ended.start_slot == header.start_slot && ended.end_hover_slot == header.end_hover_slot,
        has_same_state(ended, header),
        covered.end_hover_slot == slot,
        covered.start_slot == header.start_slot && covered.end_slot == header.end_slot,
        has_same_state(covered, header),
{
}

/// The header begins with what it is known by and how wide it is, and goes on with
/// its row, whose height comes first.
pub proof fn header_begins_with_its_name<E, H: Copy>(
    header: ListHeader<E, H>,
    density: UiDensity,
    ops: Vec<DrawOp<E, H>>,
)
    requires
        call_ensures(ListHeader::<E, H>::render, (header, density), ops),
    ensures
        op_views(ops@).len() >= 7,
        op_views(ops@)[0] == DrawOpView::<E, H>::Open(Container::HFlex),
        op_views(ops@)[1] == DrawOpView::<E, H>::Id(header.label@),
        op_views(ops@)[2] == DrawOpView::<E, H>::Style(Style::WidthFull),
        op_views(ops@)[3] == DrawOpView::<E, H>::Style(Style::Relative),
        op_views(ops@)[4] == DrawOpView::<E, H>::Group("list_header"@),
        op_views(ops@)[5] == DrawOpView::<E, H>::Open(Container::Div),
        op_views(ops@)[6] is Style && op_views(ops@)[6]->Style_0 is Height,
{
}

proof fn lemma_regroup_end<E, H>(
    head: Seq<DrawOpView<E, H>>,
    before: Seq<DrawOpView<E, H>>,
    far: Seq<DrawOpView<E, H>>,
    over: Seq<DrawOpView<E, H>>,
)
    ensures
        contained(
            Container::HFlex,
            head + contained(Container::Div, before + far + over),
        ) == (seq![DrawOpView::<E, H>::Open(Container::HFlex)] + head + seq![
            DrawOpView::<E, H>::Open(Container::Div),
        ] + before) + (far + over + seq![DrawOpView::<E, H>::Close] + seq![
            DrawOpView::<E, H>::Close,
        ]),
{
    assert(contained(
        Container::HFlex,
        head + contained(Container::Div, before + far + over),
    ) =~= (seq![DrawOpView::<E, H>::Open(Container::HFlex)] + head + seq![
        DrawOpView::<E, H>::Open(Container::Div),
    ] + before) + (far + over + seq![DrawOpView::<E, H>::Close] + seq![
        DrawOpView::<E, H>::Close,
    ]));
}

/// Whether these instructions are the last ones.
pub open spec fn ends_with<E, H>(
    whole: Seq<DrawOpView<E, H>>,
    part: Seq<DrawOpView<E, H>>,
) -> bool {
    exists|before: Seq<DrawOpView<E, H>>| whole == #[trigger] (before + part)
}

/// The header ends with its far side, in a row of its own, with what covers it while
/// the pointer is over the header, and with the ends of its two containers.
pub proof fn header_ends_with_far_side<E, H: Copy>(
    header: ListHeader<E, H>,
    density: UiDensity,
    ops: Vec<DrawOp<E, H>>,
)
    requires
        call_ensures(ListHeader::<E, H>::render, (header, density), ops),
    ensures
        ends_with(
            op_views(ops@),
            seq![DrawOpView::<E, H>::Open(Container::HFlex)] + (match header.end_slot {
                Some(element) => seq![DrawOpView::<E, H>::Child(element)],
                None => seq![],
            }) + seq![DrawOpView::<E, H>::Close] + (match header.end_hover_slot {
                Some(element) => seq![DrawOpView::<E, H>::Open(Container::Div)] + seq![
                    DrawOpView::<E, H>::Style(Style::Absolute),
                    DrawOpView::Style(Style::Right0),
                    DrawOpView::VisibleOnHover("list_header"@),
                    DrawOpView::Child(element),
                ] + seq![DrawOpView::<E, H>::Close],
                None => seq![],
            }) + seq![DrawOpView::<E, H>::Close] + seq![DrawOpView::<E, H>::Close],
        ),
{
    let head = header_style_ops::<E, H>(header.label@);
    let style = row_style_ops::<E, H>(header.inset, header.selected, density);
    let near = near_side_ops(header.label@, header.start_slot, header.toggle, header.on_toggle);
    let far = far_side_ops::<E, H>(header.end_slot);
    let over = hover_ops::<E, H>(header.end_hover_slot);
    lemma_regroup_end(head, style + near, far, over);
}

proof fn lemma_regroup_near_side<E, H>(
    disclosure: Seq<DrawOpView<E, H>>,
    looks: Seq<DrawOpView<E, H>>,
    label: Seq<DrawOpView<E, H>>,
    clicked: Seq<DrawOpView<E, H>>,
    far: Seq<DrawOpView<E, H>>,
)
    ensures
        contained(
            Container::HFlex,
            disclosure + contained(Container::Div, looks + label + clicked),
        ) + far == (seq![DrawOpView::<E, H>::Open(Container::HFlex)] + disclosure + seq![
            DrawOpView::<E, H>::Open(Container::Div),
        ] + looks) + (label + clicked + seq![DrawOpView::<E, H>::Close] + seq![
            DrawOpView::<E, H>::Close,
        ] + far) + seq![],
{
    assert(contained(
        Container::HFlex,
        disclosure + contained(Container::Div, looks + label + clicked),
    ) + far =~= (seq![DrawOpView::<E, H>::Open(Container::HFlex)] + disclosure + seq![
        DrawOpView::<E, H>::Open(Container::Div),
    ] + looks) + (label + clicked + seq![DrawOpView::<E, H>::Close] + seq![
        DrawOpView::<E, H>::Close,
    ] + far) + seq![]);
}

proof fn lemma_both_sides_stand_in<E, H>(header: ListHeader<E, H>, density: UiDensity)
    ensures
        stands_in(
            near_side_ops(header.label@, header.start_slot, header.toggle, header.on_toggle)
                + far_side_ops::<E, H>(header.end_slot),
            render_spec(header, density),
        ),
{
    let head = header_style_ops::<E, H>(header.label@);
    let style = row_style_ops::<E, H>(header.inset, header.selected, density);
    let near = near_side_ops(header.label@, header.start_slot, header.toggle, header.on_toggle);
    let far = far_side_ops::<E, H>(header.end_slot);
    let over = hover_ops::<E, H>(header.end_hover_slot);
    let row = row_ops(header, density);
    let inner = style + near + far + over;
    lemma_stands_in_sum(style, near + far, over);
    assert(style + (near + far) + over == inner);
    lemma_stands_in_sum(
        seq![DrawOpView::<E, H>::Open(Container::Div)],
        inner,
        seq![DrawOpView::<E, H>::Close],
    );
    lemma_stands_in_part(near + far, inner, row);
    lemma_stands_in_sum(head, row, seq![]);
    assert(head + row + Seq::<DrawOpView<E, H>>::empty() == head + row);
    lemma_stands_in_part(near + far, row, head + row);
    lemma_stands_in_sum(
        seq![DrawOpView::<E, H>::Open(Container::HFlex)],
        head + row,
        seq![DrawOpView::<E, H>::Close],
    );
    lemma_stands_in_part(near + far, head + row, render_spec(header, density));
}

/// The far side follows the near side, which ends with the label and with what a
/// click on it calls.
pub proof fn far_side_follows_label<E, H: Copy>(
    header: ListHeader<E, H>,
    density: UiDensity,
    ops: Vec<DrawOp<E, H>>,
)
    requires
        call_ensures(ListHeader::<E, H>::render, (header, density), ops),
    ensures
        stands_in(
            seq![DrawOpView::<E, H>::MutedLabel(header.label@)] + (match header.on_toggle {
                Some(handler) => seq![DrawOpView::<E, H>::OnClick(handler)],
                None => seq![],
            }) + seq![DrawOpView::<E, H>::Close] + seq![DrawOpView::<E, H>::Close] + (seq![
                DrawOpView::<E, H>::Open(Container::HFlex),
            ] + (match header.end_slot {
                Some(element) => seq![DrawOpView::<E, H>::Child(element)],
                None => seq![],
            }) + seq![DrawOpView::<E, H>::Close]),
            op_views(ops@),
        ),
{
    let near = near_side_ops(header.label@, header.start_slot, header.toggle, header.on_toggle);
    let far = far_side_ops::<E, H>(header.end_slot);
    let disclosure = disclosure_ops::<E, H>(header.toggle, header.on_toggle);
    let looks = seq![
        DrawOpView::<E, H>::Id(LABEL_CONTAINER_ID@),
        DrawOpView::Style(Style::Flex),
        DrawOpView::Style(Style::GapBase04),
        DrawOpView::Style(Style::ItemsCenter),
    ] + slot_ops::<E, H>(header.start_slot);
    let label = seq![DrawOpView::<E, H>::MutedLabel(header.label@)];
    let clicked = match header.on_toggle {
        Some(handler) => seq![DrawOpView::<E, H>::OnClick(handler)],
        None => seq![],
    };
    let close = seq![DrawOpView::<E, H>::Close];
    let part = label + clicked + close + close + far;
    let before = seq![DrawOpView::<E, H>::Open(Container::HFlex)] + disclosure + seq![
        DrawOpView::<E, H>::Open(Container::Div),
    ] + looks;
    lemma_regroup_near_side(disclosure, looks, label, clicked, far);
    lemma_stands_in_sum(before, part, seq![]);
    lemma_both_sides_stand_in(header, density);
    lemma_stands_in_part(part, near + far, render_spec(header, density));
}

} // verus!
