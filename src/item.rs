use arrayvec::ArrayVec;
use vstd::prelude::*;

verus! {

/// `arrayvec::ArrayVec`, opaque here: what it holds is named by `arc_name_list`.
#[verifier::external_type_specification]
#[verifier::external_body]
#[verifier::reject_recursive_types(T)]
pub struct ExArrayVec<T, const CAP: usize>(ArrayVec<T, CAP>);

/// The archive names held by a list of at most two of them, in order.
pub uninterp spec fn arc_name_list(v: ArrayVec<&'static str, 2>) -> Seq<&'static str>;

/// Relies on `ArrayVec::new`: the new vector is empty.
#[verifier::external_body]
fn empty_names() -> (r: ArrayVec<&'static str, 2>)
    ensures
        arc_name_list(r) == Seq::<&'static str>::empty(),
{
    ArrayVec::new()
}

/// Relies on `ArrayVec::push`: appends one element, and panics only when the vector is full.
#[verifier::external_body]
fn push_name(v: &mut ArrayVec<&'static str, 2>, name: &'static str)
    requires
        arc_name_list(*old(v)).len() < 2,
    ensures
        arc_name_list(*final(v)) == arc_name_list(*old(v)).push(name),
{
    v.push(name)
}

/// A list holding one name.
fn single_arrayvec(name: &'static str) -> (r: ArrayVec<&'static str, 2>)
    ensures
        arc_name_list(r) == seq![name],
{
    let mut v = empty_names();
    push_name(&mut v, name);
    v
}

/// The reserved model index of the dummy entry: an item that has no asset by design.
pub const DUMMY_MODEL_INDEX: u16 = 0xA7;

/// The archive name of an identifier of the extended range, which maps to one fixed name
/// without going through the tables.
pub open spec fn override_name(item_id: u16) -> Option<&'static str> {
    match item_id {
        214 => Some("Onp"),
        215 => Some("DesertRobot"),
        216 => Some("GetKobunALetter"),
        217 => Some("GetSwordA"),
        218 => Some("GetHarp"),
        219 => Some("GetBowA"),
        220 => Some("GetHookShot"),
        221 => Some("GetBirdStatue"),
        222 => Some("GetVacuum"),
        223 => Some("GetPachinkoA"),
        224 => Some("GetBeetleA"),
        225 => Some("GetMoleGloveA"),
        226 => Some("GetUroko"),
        227 => Some("GetNetA"),
        228 => Some("GetBombBag"),
        229 => Some("GetTriForceSingle"),
        230 => Some("GetWhip"),
        231 => Some("GetEarring"),
        232 => Some("GetSozaiC"),
        233 => Some("GetSekibanMapA"),
        234 => Some("GetSekibanMapB"),
        235 => Some("GetSekibanMapC"),
        236 => Some("GetSirenKey"),
        237 => Some("DesertRobot"),
        238 => Some("GetMap"),
        239 => Some("GetKeySmall"),
        240 => Some("GetKeyBoss2A"),
        241 => Some("GetKeyBoss2B"),
        242 => Some("GetKeyBoss2C"),
        243 => Some("GetKeyBossA"),
        244 => Some("GetKeyBossB"),
        245 => Some("GetKeyBossC"),
        _ => None,
    }
}

/// Looks up the archive name that overrides the tables for an identifier of the extended range.
pub fn resolve_override(item_id: u16) -> (r: Option<&'static str>)
    ensures
        r == override_name(item_id),
{
    match item_id {
        214 => Some("Onp"),
        215 => Some("DesertRobot"),
        216 => Some("GetKobunALetter"),
        217 => Some("GetSwordA"),
        218 => Some("GetHarp"),
        219 => Some("GetBowA"),
        220 => Some("GetHookShot"),
        221 => Some("GetBirdStatue"),
        222 => Some("GetVacuum"),
        223 => Some("GetPachinkoA"),
        224 => Some("GetBeetleA"),
        225 => Some("GetMoleGloveA"),
        226 => Some("GetUroko"),
        227 => Some("GetNetA"),
        228 => Some("GetBombBag"),
        229 => Some("GetTriForceSingle"),
        230 => Some("GetWhip"),
        231 => Some("GetEarring"),
        232 => Some("GetSozaiC"),
        233 => Some("GetSekibanMapA"),
        234 => Some("GetSekibanMapB"),
        235 => Some("GetSekibanMapC"),
        236 => Some("GetSirenKey"),
        237 => Some("DesertRobot"),
        238 => Some("GetMap"),
        239 => Some("GetKeySmall"),
        240 => Some("GetKeyBoss2A"),
        241 => Some("GetKeyBoss2B"),
        242 => Some("GetKeyBoss2C"),
        243 => Some("GetKeyBossA"),
        244 => Some("GetKeyBossB"),
        245 => Some("GetKeyBossC"),
        _ => None,
    }
}

/// A generic item model: its archive and the model inside it.
#[derive(Clone, Copy, Debug)]
pub struct ItemModelDef {
    pub arc_name: &'static str,
    pub model_name: &'static str,
}

/// A dual model: one archive for the item put down, one for the item being got.
#[derive(Clone, Copy, Debug)]
pub struct PutItemModelNameDef {
    pub put_arc_name: &'static str,
    pub put_model_name: &'static str,
    pub get_arc_name: &'static str,
    pub get_model_name: &'static str,
}

/// A shield model. `unk` is the bit pattern of the host's single-precision weight threshold.
#[derive(Clone, Copy, Debug)]
pub struct GetShieldStruct {
    pub unk: u32,
    pub arc_name: &'static str,
    pub model_name: &'static str,
    pub equip_name: &'static str,
}

/// A bottle model.
#[derive(Clone, Copy, Debug)]
pub struct GetBottleNameDef {
    pub arc_name: &'static str,
    pub model_name: &'static str,
    pub equip_name: &'static str,
}

/// A potion bottle model: four names, the first of which is the archive.
#[derive(Clone, Copy, Debug)]
pub struct GetPotionBottleNameDef {
    pub name1: &'static str,
    pub name2: &'static str,
    pub name3: &'static str,
    pub name4: &'static str,
}

/// The host's item tables. An item identifier indexes `item_to_model_index` and gives a
/// model index; each category maps a model index to a row of its own name table through
/// an index table of its own.
pub struct ItemTables {
    pub item_to_model_index: Vec<u16>,
    pub item_model_index: Vec<u8>,
    pub item_model_defs: Vec<ItemModelDef>,
    pub model_id_to_put_item_model_idx: Vec<u8>,
    pub put_item_model_names: Vec<PutItemModelNameDef>,
    pub get_shield_model_index: Vec<u8>,
    pub get_shield_model_names: Vec<GetShieldStruct>,
    pub get_bottle_model_index: Vec<u8>,
    pub get_bottle_model_names: Vec<GetBottleNameDef>,
    pub get_potion_bottle_model_index: Vec<u8>,
    pub get_potion_bottle_defs: Vec<GetPotionBottleNameDef>,
}

/// The model index of an item, absent when the identifier lies past the table.
pub open spec fn model_index(t: ItemTables, item_id: u16) -> Option<u16> {
    if (item_id as int) < t.item_to_model_index@.len() {
        Some(t.item_to_model_index@[item_id as int])
    } else {
        None
    }
}

/// The row that `index` gives to model index `m` in a table of `rows` rows, when both
/// steps stay in bounds.
pub open spec fn row_index(index: Seq<u8>, m: u16, rows: nat) -> Option<int> {
    if (m as int) < index.len() && (index[m as int] as int) < rows {
        Some(index[m as int] as int)
    } else {
        None
    }
}

/// The row of the generic category for model index `m`.
pub open spec fn generic_row(t: ItemTables, m: u16) -> Option<int> {
    row_index(t.item_model_index@, m, t.item_model_defs@.len())
}

/// The row of the put/get category for model index `m`.
pub open spec fn put_get_row(t: ItemTables, m: u16) -> Option<int> {
    row_index(t.model_id_to_put_item_model_idx@, m, t.put_item_model_names@.len())
}

/// The row of the shield category for model index `m`.
pub open spec fn shield_row(t: ItemTables, m: u16) -> Option<int> {
    row_index(t.get_shield_model_index@, m, t.get_shield_model_names@.len())
}

/// The row of the bottle category for model index `m`.
pub open spec fn bottle_row(t: ItemTables, m: u16) -> Option<int> {
    row_index(t.get_bottle_model_index@, m, t.get_bottle_model_names@.len())
}

/// The row of the potion bottle category for model index `m`.
pub open spec fn potion_bottle_row(t: ItemTables, m: u16) -> Option<int> {
    row_index(t.get_potion_bottle_model_index@, m, t.get_potion_bottle_defs@.len())
}

/// The archive names of model index `m`, taken from the first category, in the order
/// generic, put/get, shield, bottle, potion bottle, that has a row for it.
pub open spec fn category_names(t: ItemTables, m: u16) -> Seq<&'static str> {
    if generic_row(t, m) is Some {
        seq![t.item_model_defs@[generic_row(t, m)->0].arc_name]
    } else if put_get_row(t, m) is Some {
        let d = t.put_item_model_names@[put_get_row(t, m)->0];
        seq![d.put_arc_name, d.get_arc_name]
    } else if shield_row(t, m) is Some {
        seq![t.get_shield_model_names@[shield_row(t, m)->0].arc_name]
    } else if bottle_row(t, m) is Some {
        seq![t.get_bottle_model_names@[bottle_row(t, m)->0].arc_name]
    } else if potion_bottle_row(t, m) is Some {
        seq![t.get_potion_bottle_defs@[potion_bottle_row(t, m)->0].name1]
    } else {
        Seq::empty()
    }
}

/// The archive names that represent an item: the override of the extended range if there
/// is one; else nothing for an identifier past the table or for the dummy model index;
/// else the names of the first category that has a row for the item's model index.
pub open spec fn item_arc_names(t: ItemTables, item_id: u16) -> Seq<&'static str> {
    if override_name(item_id) is Some {
        seq![override_name(item_id)->0]
    } else if model_index(t, item_id) is None {
        Seq::empty()
    } else if model_index(t, item_id)->0 == DUMMY_MODEL_INDEX {
        Seq::empty()
    } else {
        category_names(t, model_index(t, item_id)->0)
    }
}

/// The generic model definition of an item, without the dummy or override checks.
pub open spec fn item_model_def(t: ItemTables, item_id: u16) -> Option<ItemModelDef> {
    match model_index(t, item_id) {
        Some(m) => match generic_row(t, m) {
            Some(i) => Some(t.item_model_defs@[i]),
            None => None,
        },
        None => None,
    }
}

/// Looks up the model index of an item; absent when the identifier lies past the table.
pub fn model_index_of(t: &ItemTables, item_id: u16) -> (r: Option<u16>)
    ensures
        r == model_index(*t, item_id),
{
    if (item_id as usize) < t.item_to_model_index.len() {
        Some(t.item_to_model_index[item_id as usize])
    } else {
        None
    }
}

/// Follows model index `m` through `index` to a row of a table of `rows` rows.
fn lookup_row(index: &Vec<u8>, m: u16, rows: usize) -> (r: Option<usize>)
    ensures
        match r {
            Some(i) => row_index(index@, m, rows as nat) == Some(i as int),
            None => row_index(index@, m, rows as nat) is None,
        },
{
    if (m as usize) < index.len() {
        let i = index[m as usize] as usize;
        if i < rows {
            return Some(i);
        }
    }
    None
}

/// Looks up the generic model definition of an item.
pub fn get_item_model_def_for_item(t: &ItemTables, item_id: u16) -> (r: Option<&ItemModelDef>)
    ensures
        match r {
            Some(d) => item_model_def(*t, item_id) == Some(*d),
            None => item_model_def(*t, item_id) is None,
        },
{
    match model_index_of(t, item_id) {
        Some(m) => match lookup_row(&t.item_model_index, m, t.item_model_defs.len()) {
            Some(i) => Some(&t.item_model_defs[i]),
            None => None,
        },
        None => None,
    }
}

/// The archive names of model index `m`, from the first category that has a row for it.
fn category_arc_names(t: &ItemTables, m: u16) -> (r: ArrayVec<&'static str, 2>)
    ensures
        arc_name_list(r) == category_names(*t, m),
{
    if let Some(i) = lookup_row(&t.item_model_index, m, t.item_model_defs.len()) {
        return single_arrayvec(t.item_model_defs[i].arc_name);
    }
    if let Some(i) = lookup_row(&t.model_id_to_put_item_model_idx, m, t.put_item_model_names.len()) {
        let d = &t.put_item_model_names[i];
        let mut v = single_arrayvec(d.put_arc_name);
        push_name(&mut v, d.get_arc_name);
        return v;
    }
    if let Some(i) = lookup_row(&t.get_shield_model_index, m, t.get_shield_model_names.len()) {
        return single_arrayvec(t.get_shield_model_names[i].arc_name);
    }
    if let Some(i) = lookup_row(&t.get_bottle_model_index, m, t.get_bottle_model_names.len()) {
        return single_arrayvec(t.get_bottle_model_names[i].arc_name);
    }
    if let Some(i) = lookup_row(
        &t.get_potion_bottle_model_index,
        m,
        t.get_potion_bottle_defs.len(),
    ) {
        return single_arrayvec(t.get_potion_bottle_defs[i].name1);
    }
    empty_names()
}

/// The archive names to load for an item: none, one, or two (put then get).
pub fn get_item_arc_names_for_item(t: &ItemTables, item_id: u16) -> (r: ArrayVec<&'static str, 2>)
    ensures
        arc_name_list(r) == item_arc_names(*t, item_id),
{
    if let Some(name) = resolve_override(item_id) {
        return single_arrayvec(name);
    }
    match model_index_of(t, item_id) {
        Some(m) => {
            if m == DUMMY_MODEL_INDEX {
                empty_names()
            } else {
                category_arc_names(t, m)
            }
        },
        None => empty_names(),
    }
}

/// A list of zero, one or two archive names.
#[derive(Clone, Copy, Debug)]
pub enum ArcNames {
    Empty,
    One([&'static str; 1]),
    Two([&'static str; 2]),
}

impl ArcNames {
    pub open spec fn view(&self) -> Seq<&'static str> {
        match self {
            ArcNames::Empty => Seq::empty(),
            ArcNames::One(x) => x@,
            ArcNames::Two(x) => x@,
        }
    }

    /// The names, in order.
    pub fn slice(&self) -> (r: &[&'static str])
        ensures
            r@ == self@,
    {
        match self {
            ArcNames::Empty => &[],
            ArcNames::One(x) => x.as_slice(),
            ArcNames::Two(x) => x.as_slice(),
        }
    }
}

} // verus!
