use crate::item::{
    arc_name_list, bottle_row, category_names, generic_row, item_arc_names, model_index, override_name,
    potion_bottle_row, put_get_row, shield_row, ItemTables, DUMMY_MODEL_INDEX,
};
use arrayvec::ArrayVec;
use vstd::prelude::*;

verus! {

/// An identifier of the extended range resolves to its one override name, whatever the
/// tables hold.
pub proof fn lemma_override_bypasses_tables(t1: ItemTables, t2: ItemTables, item_id: u16)
    requires
        override_name(item_id) is Some,
    ensures
        item_arc_names(t1, item_id) == seq![override_name(item_id)->0],
        item_arc_names(t1, item_id).len() == 1,
        item_arc_names(t1, item_id) == item_arc_names(t2, item_id),
{
}

/// An item whose model index is the dummy one resolves to no name, whatever the category
/// tables hold.
pub proof fn lemma_dummy_resolves_empty(t: ItemTables, item_id: u16)
    requires
        override_name(item_id) is None,
        model_index(t, item_id) == Some(DUMMY_MODEL_INDEX),
    ensures
        item_arc_names(t, item_id) == Seq::<&'static str>::empty(),
{
}

/// When the generic category has a row for an item's model index, its archive is the one
/// name returned, whatever the later categories hold.
pub proof fn lemma_generic_category_wins(t: ItemTables, item_id: u16)
    requires
        override_name(item_id) is None,
        model_index(t, item_id) is Some,
        model_index(t, item_id)->0 != DUMMY_MODEL_INDEX,
        generic_row(t, model_index(t, item_id)->0) is Some,
    ensures
        item_arc_names(t, item_id) == seq![
            t.item_model_defs@[generic_row(t, model_index(t, item_id)->0)->0].arc_name,
        ],
{
}

/// Each later category is reached only when every earlier one has no row for the model
/// index: shield before bottle, bottle before potion bottle.
pub proof fn lemma_later_categories_in_order(t: ItemTables, m: u16)
    requires
        generic_row(t, m) is None,
        put_get_row(t, m) is None,
    ensures
        shield_row(t, m) is Some ==> category_names(t, m) == seq![
            t.get_shield_model_names@[shield_row(t, m)->0].arc_name,
        ],
        shield_row(t, m) is None && bottle_row(t, m) is Some ==> category_names(t, m) == seq![
            t.get_bottle_model_names@[bottle_row(t, m)->0].arc_name,
        ],
        shield_row(t, m) is None && bottle_row(t, m) is None && potion_bottle_row(t, m) is Some
            ==> category_names(t, m) == seq![
            t.get_potion_bottle_defs@[potion_bottle_row(t, m)->0].name1,
        ],
        shield_row(t, m) is None && bottle_row(t, m) is None && potion_bottle_row(t, m) is None
            ==> category_names(t, m) == Seq::<&'static str>::empty(),
{
}

/// Resolution gives at most two names. It gives two exactly when the put/get category is
/// the first with a row for the item, and then they are its put archive and get archive,
/// in that order; every other category gives one.
pub proof fn lemma_name_count(t: ItemTables, item_id: u16)
    ensures
        item_arc_names(t, item_id).len() <= 2,
        item_arc_names(t, item_id).len() == 2 <==> {
            &&& override_name(item_id) is None
            &&& model_index(t, item_id) is Some
            &&& model_index(t, item_id)->0 != DUMMY_MODEL_INDEX
            &&& generic_row(t, model_index(t, item_id)->0) is None
            &&& put_get_row(t, model_index(t, item_id)->0) is Some
        },
        item_arc_names(t, item_id).len() == 2 ==> item_arc_names(t, item_id) == seq![
            t.put_item_model_names@[put_get_row(t, model_index(t, item_id)->0)->0].put_arc_name,
            t.put_item_model_names@[put_get_row(t, model_index(t, item_id)->0)->0].get_arc_name,
        ],
        override_name(item_id) is None && model_index(t, item_id) is Some
            && model_index(t, item_id)->0 != DUMMY_MODEL_INDEX
            && generic_row(t, model_index(t, item_id)->0) is None
            && put_get_row(t, model_index(t, item_id)->0) is None
            && (shield_row(t, model_index(t, item_id)->0) is Some
                || bottle_row(t, model_index(t, item_id)->0) is Some
                || potion_bottle_row(t, model_index(t, item_id)->0) is Some)
            ==> item_arc_names(t, item_id).len() == 1,
{
}

/// An identifier outside both the item table and the extended range resolves to no name.
pub proof fn lemma_out_of_range_resolves_empty(t: ItemTables, item_id: u16)
    requires
        override_name(item_id) is None,
        item_id as int >= t.item_to_model_index@.len(),
    ensures
        item_arc_names(t, item_id) == Seq::<&'static str>::empty(),
{
}

/// Two resolutions of one identifier over the same tables give the same names.
pub proof fn lemma_resolution_repeatable(
    t: ItemTables,
    item_id: u16,
    r1: ArrayVec<&'static str, 2>,
    r2: ArrayVec<&'static str, 2>,
)
    requires
        arc_name_list(r1) == item_arc_names(t, item_id),
        arc_name_list(r2) == item_arc_names(t, item_id),
    ensures
        arc_name_list(r1) == arc_name_list(r2),
{
}

} // verus!
