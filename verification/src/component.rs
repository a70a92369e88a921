//! The plan of the code that the `sixtyfps!` macro generates for a lowered
//! component: one item-tree entry, one field and one type per item, and one
//! initialisation statement per initial property value.

use vstd::prelude::*;

verus! {

/// An initial property value of an item, as the lowering pass leaves it.
/// `N` is the number type of number literals.
pub enum InitExpression<N> {
    Invalid,
    Identifier(String),
    StringLiteral(String),
    NumberLiteral(N),
}

/// The value that the generated code assigns to a property.
pub enum InitValue<N> {
    /// No value (the expression is invalid or not supported).
    Empty,
    /// A shared string made from this text.
    SharedString(String),
    /// This number, converted to the property's type.
    Number(N),
}

/// The parts of a lowered item that the generated code reads.
pub struct LoweredItem<N> {
    pub id: String,
    pub vtable: String,
    pub class_name: String,
    pub children_len: usize,
    pub init_properties: Vec<(String, InitExpression<N>)>,
}

/// One node of the generated static item tree.
pub struct ItemTreeEntry {
    pub field_name: String,
    pub vtable: String,
    pub children_count: u32,
    pub children_index: u32,
}

/// One generated statement `self_.field.property.set(value)`.
pub struct InitStatement<N> {
    pub field_name: String,
    pub property: String,
    pub value: InitValue<N>,
}

/// Everything the generated component is made of, item by item in the
/// order of the item tree.
pub struct ComponentPlan<N> {
    pub item_tree: Vec<ItemTreeEntry>,
    pub item_names: Vec<String>,
    pub item_types: Vec<String>,
    pub init: Vec<InitStatement<N>>,
}

/// The value generated for an initial expression: strings become shared
/// strings, numbers stay numbers, anything else gives no value.
pub open spec fn spec_init_value<N>(e: InitExpression<N>) -> InitValue<N> {
    match e {
        InitExpression::StringLiteral(s) => InitValue::SharedString(s),
        InitExpression::NumberLiteral(n) => InitValue::Number(n),
        _ => InitValue::Empty,
    }
}

/// The statements generated for the initial properties of one item.
pub open spec fn spec_init_statements<N>(
    field_name: String,
    props: Seq<(String, InitExpression<N>)>,
) -> Seq<InitStatement<N>> {
    props.map_values(
        |p: (String, InitExpression<N>)|
            InitStatement { field_name: field_name, property: p.0, value: spec_init_value(p.1) },
    )
}

/// The tree entry generated for an item; the child count is truncated to
/// 32 bits as the generated table stores it.
pub open spec fn spec_tree_entry<N>(item: LoweredItem<N>, children_index: u32) -> ItemTreeEntry {
    ItemTreeEntry {
        field_name: item.id,
        vtable: item.vtable,
        children_count: item.children_len as u32,
        children_index: children_index,
    }
}

impl<N> ComponentPlan<N> {
    /// One tree entry, one field name and one type per item; every
    /// initialisation statement sets a property of a planned field.
    pub open spec fn wf(&self) -> bool {
        &&& self.item_tree@.len() == self.item_names@.len()
        &&& self.item_types@.len() == self.item_names@.len()
        &&& forall|i: int| 0 <= i < self.item_tree@.len() ==> #[trigger] self.item_tree@[i].field_name == self.item_names@[i]
        &&& forall|j: int| 0 <= j < self.init@.len() ==> self.item_names@.contains(#[trigger] self.init@[j].field_name)
    }

    /// An empty plan.
    pub fn new() -> (plan: Self)
        ensures
            plan.wf(),
            plan.item_tree@.len() == 0,
            plan.init@.len() == 0,
    {
        ComponentPlan { item_tree: Vec::new(), item_names: Vec::new(), item_types: Vec::new(), init: Vec::new() }
    }
}

/// The value generated for an initial expression.
pub fn init_value<N: Copy>(e: &InitExpression<N>) -> (v: InitValue<N>)
    ensures
        v == spec_init_value(*e),
{
    match e {
        InitExpression::StringLiteral(s) => InitValue::SharedString(s.clone()),
        InitExpression::NumberLiteral(n) => InitValue::Number(*n),
        _ => InitValue::Empty,
    }
}

impl<N: Copy> ComponentPlan<N> {
    /// Adds an item visited at `children_index` of the item tree: its tree
    /// entry, its field name and type, and one statement per initial
    /// property, in the order of the properties.
    pub fn add_item(&mut self, item: &LoweredItem<N>, children_index: u32)
        requires
            old(self).wf(),
        ensures
            final(self).wf(),
            final(self).item_tree@ == old(self).item_tree@.push(spec_tree_entry(*item, children_index)),
            final(self).item_names@ == old(self).item_names@.push(item.id),
            final(self).item_types@ == old(self).item_types@.push(item.class_name),
            final(self).init@ == old(self).init@ + spec_init_statements(item.id, item.init_properties@),
    {
        let ghost old_names = self.item_names@;
        self.item_tree.push(
            ItemTreeEntry {
                field_name: item.id.clone(),
                vtable: item.vtable.clone(),
                children_count: item.children_len as u32,
                children_index: children_index,
            },
        );
        let ghost init0 = self.init@;
        let n = item.init_properties.len();
        let mut k: usize = 0;
        while k < n
            invariant
                n == item.init_properties@.len(),
                k <= n,
                self.init@ == init0 + spec_init_statements(item.id, item.init_properties@.take(k as int)),
                self.item_tree@ == old(self).item_tree@.push(spec_tree_entry(*item, children_index)),
                self.item_names@ == old_names,
                self.item_types@ == old(self).item_types@,
            decreases n - k,
        {
            let (prop, expr) = &item.init_properties[k];
            let value = init_value(expr);
            self.init.push(InitStatement { field_name: item.id.clone(), property: prop.clone(), value: value });
            assert(item.init_properties@.take(k + 1) =~= item.init_properties@.take(k as int).push(
                item.init_properties@[k as int],
            ));
            assert(spec_init_statements(item.id, item.init_properties@.take(k + 1)) =~= spec_init_statements(
                item.id,
                item.init_properties@.take(k as int),
            ).push(InitStatement { field_name: item.id, property: *prop, value: spec_init_value(*expr) }));
            k = k + 1;
        }
        assert(item.init_properties@.take(n as int) =~= item.init_properties@);
        self.item_names.push(item.id.clone());
        self.item_types.push(item.class_name.clone());
        assert forall|j: int| 0 <= j < self.init@.len() implies self.item_names@.contains(#[trigger] self.init@[j].field_name) by {
            if j < init0.len() {
                let i = choose|i: int| 0 <= i < old_names.len() && old_names[i] == init0[j].field_name;
                assert(self.item_names@[i] == old_names[i]);
            } else {
                assert(self.item_names@[old_names.len() as int] == item.id);
            }
        }
    }
}


/// Each initial property gives one statement on the item's field, in the
/// order of the properties: a string literal is set as a shared string of
/// the same text (an empty one included), a number as that number, and only
/// invalid expressions and identifiers give no value.
pub proof fn law_init_statements<N>(field_name: String, props: Seq<(String, InitExpression<N>)>)
    ensures
        spec_init_statements(field_name, props).len() == props.len(),
        forall|j: int| 0 <= j < props.len() ==> {
            let st = #[trigger] spec_init_statements(field_name, props)[j];
            &&& st.field_name == field_name
            &&& st.property == props[j].0
            &&& (props[j].1 matches InitExpression::StringLiteral(s) ==> (st.value matches InitValue::SharedString(t) && t@ == s@))
            &&& (props[j].1 matches InitExpression::NumberLiteral(n) ==> st.value == InitValue::Number(n))
            &&& ((props[j].1 is Invalid) || (props[j].1 is Identifier)) <==> (st.value is Empty)
        },
{
}

/// The value of an initial expression is empty exactly for invalid
/// expressions and identifiers; a string literal keeps its text.
pub proof fn law_init_value<N>(e: InitExpression<N>)
    ensures
        (spec_init_value(e) is Empty) <==> ((e is Invalid) || (e is Identifier)),
        (e matches InitExpression::StringLiteral(s) ==> (spec_init_value(e) matches InitValue::SharedString(t) && t@ == s@)),
        (e matches InitExpression::NumberLiteral(n) ==> spec_init_value(e) == InitValue::Number(n)),
{
}


/// The tree entry of an item names its field after the item's id, points
/// at the item's vtable, records where its children start, and counts its
/// children modulo 2^32.
pub proof fn law_tree_entry<N>(item: LoweredItem<N>, children_index: u32)
    ensures
        spec_tree_entry(item, children_index).field_name == item.id,
        spec_tree_entry(item, children_index).vtable == item.vtable,
        spec_tree_entry(item, children_index).children_index == children_index,
        spec_tree_entry(item, children_index).children_count as int == item.children_len as int % 0x1_0000_0000,
{
    let n = item.children_len;
    assert(n as u32 as int == n as int % 0x1_0000_0000) by (bit_vector);
}

} // verus!
