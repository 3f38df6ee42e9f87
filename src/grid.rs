use vstd::prelude::*;

use crate::constants::{IntGridValues, TILE_SIZE};

verus! {

/// A cell of a level's grid: column `x`, row `y`.
#[derive(Copy, Clone, PartialEq, Eq, Debug, Structural)]
pub struct GridCoords {
    pub x: i32,
    pub y: i32,
}

/// One decoded integer grid layer of a level: its name, its cell values in row-major
/// order, and its size in cells.
#[derive(Clone, Debug)]
pub struct LayerInstance {
    pub identifier: String,
    pub int_grid_csv: Vec<i32>,
    pub c_wid: i32,
    pub c_hei: i32,
}

impl LayerInstance {
    /// Every stored cell lies inside the layer's declared size.
    pub open spec fn wf(&self) -> bool {
        self.c_wid > 0 && self.c_hei > 0 && self.int_grid_csv@.len() <= self.c_wid as int
            * self.c_hei as int
    }

    /// Checks `wf`.
    pub fn is_consistent(&self) -> (r: bool)
        ensures
            r == self.wf(),
    {
        if self.c_wid <= 0 || self.c_hei <= 0 {
            return false;
        }
        let w: u64 = self.c_wid as u64;
        let h: u64 = self.c_hei as u64;
        assert(w * h <= 0x7fff_ffff * 0x7fff_ffff) by (nonlinear_arith)
            requires
                w <= 0x7fff_ffff,
                h <= 0x7fff_ffff,
        ;
        (self.int_grid_csv.len() as u64) <= w * h
    }
}

/// The cell at flat index `index` of a row-major grid `width` cells wide.
pub open spec fn cell_at(index: int, width: int) -> GridCoords {
    GridCoords { x: (index % width) as i32, y: (index / width) as i32 }
}

/// The cell of flat index `index` in a `width` by `height` grid, where it has one.
pub open spec fn spec_index_to_coords(index: int, width: int, height: int) -> Option<GridCoords> {
    if width > 0 && height > 0 && 0 <= index < width * height {
        Some(cell_at(index, width))
    } else {
        None
    }
}

/// Converts a flat row-major index into the cell it names, or `None` outside the grid.
pub fn int_grid_index_to_grid_coords(index: usize, width: i32, height: i32) -> (r: Option<GridCoords>)
    ensures
        r == spec_index_to_coords(index as int, width as int, height as int),
{
    if width <= 0 || height <= 0 {
        return None;
    }
    let w: u64 = width as u64;
    let h: u64 = height as u64;
    assert(w * h <= 0x7fff_ffff * 0x7fff_ffff) by (nonlinear_arith)
        requires
            w <= 0x7fff_ffff,
            h <= 0x7fff_ffff,
    ;
    if (index as u64) >= w * h {
        return None;
    }
    let i: u64 = index as u64;
    assert(i / w < h) by (nonlinear_arith)
        requires
            i < w * h,
            w > 0,
    ;
    let x: u64 = i % w;
    let y: u64 = i / w;
    assert(x < w);
    Some(GridCoords { x: x as i32, y: y as i32 })
}

/// Whether `value` is the stored code of one of `values`.
pub open spec fn is_target(value: i32, values: Seq<IntGridValues>) -> bool {
    exists|j: int| 0 <= j < values.len() && #[trigger] values[j].spec_code() == value as int
}

/// The cells of a layer's values `csv`, in index order, whose value is a target.
pub open spec fn layer_matches(csv: Seq<i32>, width: int, values: Seq<IntGridValues>) -> Seq<GridCoords>
    decreases csv.len(),
{
    if csv.len() == 0 {
        Seq::empty()
    } else {
        let before = layer_matches(csv.drop_last(), width, values);
        if is_target(csv.last(), values) {
            before.push(cell_at(csv.len() - 1, width))
        } else {
            before
        }
    }
}

/// Whether `name` is one of `names`.
pub open spec fn is_listed(name: Seq<char>, names: Seq<Seq<char>>) -> bool {
    exists|j: int| 0 <= j < names.len() && #[trigger] names[j] == name
}

/// The texts of a list of names.
pub open spec fn names_view(names: Seq<String>) -> Seq<Seq<char>> {
    names.map_values(|s: String| s@)
}

/// Every layer that `names` selects is consistent.
pub open spec fn selected_wf(layers: Seq<LayerInstance>, names: Seq<Seq<char>>) -> bool {
    forall|l: int|
        0 <= l < layers.len() && is_listed(#[trigger] layers[l].identifier@, names) ==> layers[l].wf()
}

/// The target cells of all selected layers: layer by layer, each in index order.
pub open spec fn spec_extract(layers: Seq<LayerInstance>, names: Seq<Seq<char>>, values: Seq<IntGridValues>) -> Seq<GridCoords>
    decreases layers.len(),
{
    if layers.len() == 0 {
        Seq::empty()
    } else {
        let before = spec_extract(layers.drop_last(), names, values);
        let layer = layers.last();
        if is_listed(layer.identifier@, names) {
            before + layer_matches(layer.int_grid_csv@, layer.c_wid as int, values)
        } else {
            before
        }
    }
}

fn is_target_value(value: i32, values: &Vec<IntGridValues>) -> (r: bool)
    ensures
        r == is_target(value, values@),
{
    let mut j: usize = 0;
    while j < values.len()
        invariant
            j <= values@.len(),
            forall|k: int| 0 <= k < j ==> #[trigger] values@[k].spec_code() != value as int,
        decreases values@.len() - j,
    {
        if values[j].code() == value {
            return true;
        }
        j = j + 1;
    }
    false
}

fn name_listed(name: &String, names: &Vec<String>) -> (r: bool)
    ensures
        r == is_listed(name@, names_view(names@)),
{
    let mut j: usize = 0;
    while j < names.len()
        invariant
            j <= names@.len(),
            forall|k: int| 0 <= k < j ==> #[trigger] names_view(names@)[k] != name@,
        decreases names@.len() - j,
    {
        if names[j] == *name {
            assert(names_view(names@)[j as int] == name@);
            return true;
        }
        j = j + 1;
    }
    false
}

/// Appends the target cells of one consistent layer to `out`.
fn collect_layer(layer: &LayerInstance, values: &Vec<IntGridValues>, out: &mut Vec<GridCoords>)
    requires
        layer.wf(),
    ensures
        final(out)@ == old(out)@ + layer_matches(layer.int_grid_csv@, layer.c_wid as int, values@),
{
    let csv = &layer.int_grid_csv;
    let mut i: usize = 0;
    while i < csv.len()
        invariant
            i <= csv@.len(),
            layer.wf(),
            csv == &layer.int_grid_csv,
            out@ == old(out)@ + layer_matches(csv@.take(i as int), layer.c_wid as int, values@),
        decreases csv@.len() - i,
    {
        assert(csv@.take(i + 1).drop_last() == csv@.take(i as int));
        if is_target_value(csv[i], values) {
            let c = int_grid_index_to_grid_coords(i, layer.c_wid, layer.c_hei);
            match c {
                Some(coords) => {
                    out.push(coords);
                },
                None => {
                    assert(false);
                },
            }
        }
        i = i + 1;
    }
    assert(csv@.take(csv@.len() as int) == csv@);
}

/// The cells of the layers named in `layer_names` whose value is one of
/// `values_of_interest`: layer by layer in the given order, each in index order.
pub fn extract_intgrid_coordinates(
    layer_instances: &Vec<LayerInstance>,
    layer_names: &Vec<String>,
    values_of_interest: &Vec<IntGridValues>,
) -> (r: Vec<GridCoords>)
    requires
        selected_wf(layer_instances@, names_view(layer_names@)),
    ensures
        r@ == spec_extract(layer_instances@, names_view(layer_names@), values_of_interest@),
{
    let mut grid_coords: Vec<GridCoords> = Vec::new();
    let mut l: usize = 0;
    while l < layer_instances.len()
        invariant
            l <= layer_instances@.len(),
            selected_wf(layer_instances@, names_view(layer_names@)),
            grid_coords@ == spec_extract(
                layer_instances@.take(l as int),
                names_view(layer_names@),
                values_of_interest@,
            ),
        decreases layer_instances@.len() - l,
    {
        let layer = &layer_instances[l];
        assert(layer_instances@.take(l + 1).drop_last() == layer_instances@.take(l as int));
        assert(layer_instances@.take(l + 1).last() == layer_instances@[l as int]);
        if name_listed(&layer.identifier, layer_names) {
            collect_layer(layer, values_of_interest, &mut grid_coords);
        }
        l = l + 1;
    }
    assert(layer_instances@.take(layer_instances@.len() as int) == layer_instances@);
    grid_coords
}

proof fn lemma_matches_none(csv: Seq<i32>, width: int, values: Seq<IntGridValues>)
    requires
        forall|j: int| 0 <= j < csv.len() ==> !is_target(#[trigger] csv[j], values),
    ensures
        layer_matches(csv, width, values) == Seq::<GridCoords>::empty(),
    decreases csv.len(),
{
    if csv.len() > 0 {
        let before = csv.drop_last();
        assert forall|j: int| 0 <= j < before.len() implies !is_target(#[trigger] before[j], values) by {
            assert(before[j] == csv[j]);
        }
        lemma_matches_none(before, width, values);
        assert(!is_target(csv[csv.len() - 1], values));
    }
}

proof fn lemma_matches_one(csv: Seq<i32>, width: int, values: Seq<IntGridValues>, i: int)
    requires
        0 <= i < csv.len(),
        is_target(csv[i], values),
        forall|j: int| 0 <= j < csv.len() && j != i ==> !is_target(#[trigger] csv[j], values),
    ensures
        layer_matches(csv, width, values) == seq![cell_at(i, width)],
    decreases csv.len(),
{
    let before = csv.drop_last();
    if i == csv.len() - 1 {
        assert forall|j: int| 0 <= j < before.len() implies !is_target(#[trigger] before[j], values) by {
            assert(before[j] == csv[j]);
        }
        lemma_matches_none(before, width, values);
        assert(Seq::<GridCoords>::empty().push(cell_at(i, width)) =~= seq![cell_at(i, width)]);
    } else {
        assert forall|j: int| 0 <= j < before.len() && j != i implies !is_target(#[trigger] before[j], values) by {
            assert(before[j] == csv[j]);
        }
        assert(before[i] == csv[i]);
        lemma_matches_one(before, width, values, i);
        assert(!is_target(csv[csv.len() - 1], values));
    }
}

proof fn lemma_at_least_one(csv: Seq<i32>, width: int, values: Seq<IntGridValues>, i: int)
    requires
        0 <= i < csv.len(),
        is_target(csv[i], values),
    ensures
        layer_matches(csv, width, values).len() >= 1,
    decreases csv.len(),
{
    if i < csv.len() - 1 {
        let before = csv.drop_last();
        assert(before[i] == csv[i]);
        lemma_at_least_one(before, width, values, i);
    }
}

/// Two target cells give at least two matches.
proof fn lemma_matches_two(csv: Seq<i32>, width: int, values: Seq<IntGridValues>, i: int, j: int)
    requires
        0 <= i < j < csv.len(),
        is_target(csv[i], values),
        is_target(csv[j], values),
    ensures
        layer_matches(csv, width, values).len() >= 2,
    decreases csv.len(),
{
    let before = csv.drop_last();
    if j == csv.len() - 1 {
        assert(before[i] == csv[i]);
        lemma_at_least_one(before, width, values, i);
    } else {
        assert(before[i] == csv[i]);
        assert(before[j] == csv[j]);
        lemma_matches_two(before, width, values, i, j);
    }
}

/// The layers picked out of a single layer are that layer's matches, or none.
pub proof fn lemma_extract_single(layer: LayerInstance, names: Seq<Seq<char>>, values: Seq<IntGridValues>)
    ensures
        spec_extract(seq![layer], names, values) == if is_listed(layer.identifier@, names) {
            layer_matches(layer.int_grid_csv@, layer.c_wid as int, values)
        } else {
            Seq::<GridCoords>::empty()
        },
{
    let layers = seq![layer];
    assert(layers.drop_last() =~= Seq::<LayerInstance>::empty());
    assert(layers.last() == layer);
    assert(spec_extract(layers.drop_last(), names, values) == Seq::<GridCoords>::empty());
    assert(Seq::<GridCoords>::empty() + layer_matches(layer.int_grid_csv@, layer.c_wid as int, values)
        =~= layer_matches(layer.int_grid_csv@, layer.c_wid as int, values));
}

/// Decoding a selected layer whose only target cell sits at flat index `i` of a
/// `c_wid` by `c_hei` grid yields exactly the cell `(i % c_wid, i / c_wid)`.
pub proof fn law_single_cell_round_trip(
    layer: LayerInstance,
    names: Seq<Seq<char>>,
    values: Seq<IntGridValues>,
    i: int,
)
    requires
        layer.wf(),
        layer.int_grid_csv@.len() == layer.c_wid as int * layer.c_hei as int,
        is_listed(layer.identifier@, names),
        0 <= i < layer.int_grid_csv@.len(),
        is_target(layer.int_grid_csv@[i], values),
        forall|j: int|
            0 <= j < layer.int_grid_csv@.len() && j != i ==> !is_target(
                #[trigger] layer.int_grid_csv@[j],
                values,
            ),
    ensures
        spec_extract(seq![layer], names, values) == seq![
            GridCoords { x: (i % layer.c_wid as int) as i32, y: (i / layer.c_wid as int) as i32 },
        ],
{
    lemma_extract_single(layer, names, values);
    lemma_matches_one(layer.int_grid_csv@, layer.c_wid as int, values, i);
}

/// How many matches a single layer gives: none without a target cell, the one cell
/// with exactly one, and two or more with two.
pub proof fn lemma_matches_count(csv: Seq<i32>, width: int, values: Seq<IntGridValues>)
    ensures
        (forall|j: int| 0 <= j < csv.len() ==> !is_target(#[trigger] csv[j], values)) ==> layer_matches(
            csv,
            width,
            values,
        ).len() == 0,
        forall|i: int|
            0 <= i < csv.len() && is_target(csv[i], values) && (forall|j: int|
                0 <= j < csv.len() && j != i ==> !is_target(#[trigger] csv[j], values))
                ==> #[trigger] layer_matches(csv, width, values) == seq![cell_at(i, width)],
        forall|i: int, j: int|
            0 <= i < j < csv.len() && #[trigger] is_target(csv[i], values) && #[trigger] is_target(
                csv[j],
                values,
            ) ==> layer_matches(csv, width, values).len() >= 2,
{
    if forall|j: int| 0 <= j < csv.len() ==> !is_target(#[trigger] csv[j], values) {
        lemma_matches_none(csv, width, values);
    }
    assert forall|i: int|
        0 <= i < csv.len() && is_target(csv[i], values) && (forall|j: int|
            0 <= j < csv.len() && j != i ==> !is_target(#[trigger] csv[j], values))
            implies #[trigger] layer_matches(csv, width, values) == seq![cell_at(i, width)] by {
        lemma_matches_one(csv, width, values, i);
    }
    assert forall|i: int, j: int|
        0 <= i < j < csv.len() && #[trigger] is_target(csv[i], values) && #[trigger] is_target(
            csv[j],
            values,
        ) implies layer_matches(csv, width, values).len() >= 2 by {
        lemma_matches_two(csv, width, values, i, j);
    }
}

/// The world position of the centre of a cell.
pub open spec fn spec_cell_center(c: GridCoords) -> (int, int) {
    (c.x * TILE_SIZE + TILE_SIZE / 2, c.y * TILE_SIZE + TILE_SIZE / 2)
}

/// The world position of the centre of a cell.
pub fn cell_center(c: GridCoords) -> (r: (i64, i64))
    ensures
        r.0 as int == spec_cell_center(c).0,
        r.1 as int == spec_cell_center(c).1,
{
    let t: i64 = TILE_SIZE as i64;
    ((c.x as i64) * t + t / 2, (c.y as i64) * t + t / 2)
}

} // verus!
