//! The pictures of items, and what stands in for one that is missing.
use vstd::prelude::*;
use crate::color::{Rgba, opaque, shade, solid, translucent};
use crate::items::{DeployableKind, ItemDefinition, item_definition, item_of};
use crate::text::concat3;

verus! {

/// The picture of an item.
pub struct IconPath {
    pub item_id: String,
    pub path: String,
}

/// The item has a picture: building pieces are never carried and have none.
pub open spec fn has_icon(definition: ItemDefinition) -> bool {
    !(definition.deployable matches Some(profile) && profile.kind == DeployableKind::Building)
}

/// The pictures of the items, in the order of the registry.
pub open spec fn icons_of(items: Seq<ItemDefinition>) -> Seq<(Seq<char>, Seq<char>)>
    decreases items.len(),
{
    if items.len() == 0 {
        Seq::empty()
    } else {
        let rest = icons_of(items.drop_last());
        if has_icon(items.last()) {
            rest.push(
                (items.last().id@, "items/"@ + items.last().id@ + "/icon.png"@),
            )
        } else {
            rest
        }
    }
}

/// The paths as texts.
pub open spec fn path_texts(paths: Seq<IconPath>) -> Seq<(Seq<char>, Seq<char>)> {
    paths.map_values(|icon: IconPath| (icon.item_id@, icon.path@))
}

/// Lists the pictures to load.
pub fn icon_paths(items: &Vec<ItemDefinition>) -> (r: Vec<IconPath>)
    ensures
        path_texts(r@) == icons_of(items@),
{
    let mut paths: Vec<IconPath> = Vec::new();
    proof {
        assert(path_texts(paths@) =~= icons_of(items@.take(0)));
    }
    let mut i: usize = 0;
    while i < items.len()
        invariant
            i <= items.len(),
            path_texts(paths@) == icons_of(items@.take(i as int)),
        decreases items.len() - i,
    {
        let ghost before = paths@;
        proof {
            assert(items@.take(i + 1).drop_last() =~= items@.take(i as int));
            assert(items@.take(i + 1).last() == items@[i as int]);
        }
        let building: bool = match &items[i].deployable {
            Some(profile) => profile.kind == DeployableKind::Building,
            None => false,
        };
        if !building {
            let icon = IconPath {
                item_id: items[i].id.clone(),
                path: concat3("items/", items[i].id.as_str(), "/icon.png"),
            };
            paths.push(icon);
            proof {
                assert(path_texts(paths@) =~= path_texts(before).push(
                    (icon.item_id@, icon.path@),
                ));
            }
        }
        i = i + 1;
    }
    proof {
        assert(items@.take(i as int) =~= items@);
    }
    paths
}

/// A small letter of the alphabet as a capital one; any other character as it is.
pub open spec fn ascii_capital(c: char) -> char {
    if 'a' <= c && c <= 'z' {
        (c as u8 - 32) as char
    } else {
        c
    }
}

/// The letter on a missing picture: the first one of the name as a capital, or a
/// question mark.
pub fn placeholder_glyph(display_name: &str) -> (r: char)
    ensures
        r == if display_name@.len() == 0 {
            '?'
        } else {
            ascii_capital(display_name@[0])
        },
{
    if display_name.unicode_len() == 0 {
        return '?';
    }
    let first: char = display_name.get_char(0);
    if 'a' <= first && first <= 'z' {
        (first as u8 - 32) as char
    } else {
        first
    }
}

/// The colour of an item in the crafting list; grey for an unknown one.
pub fn item_tint(items: &Vec<ItemDefinition>, item_id: &str) -> (r: Rgba)
    ensures
        r == match item_of(items@, item_id@) {
            Some(definition) => solid(definition.tint.r, definition.tint.g, definition.tint.b),
            None => solid(146, 158, 171),
        },
{
    match item_definition(items, item_id) {
        Some(definition) => opaque(definition.tint.r, definition.tint.g, definition.tint.b),
        None => opaque(146, 158, 171),
    }
}

/// What stands for the picture of an item in a slot: its colour and the gloss on it.
/// An unknown item is grey, and what is dragged away fades.
pub fn slot_placeholder(items: &Vec<ItemDefinition>, item_id: &str, is_drag_source: bool) -> (r: (
    Rgba,
    Rgba,
))
    ensures
        ({
            let alpha: u8 = if is_drag_source {
                96
            } else {
                224
            };
            &&& r.0 == match item_of(items@, item_id@) {
                Some(definition) => shade(
                    definition.tint.r,
                    definition.tint.g,
                    definition.tint.b,
                    alpha,
                ),
                None => shade(140, 150, 162, alpha),
            }
            &&& r.1 == shade(255, 255, 255, (alpha / 3) as u8)
        }),
{
    let alpha: u8 = if is_drag_source {
        96
    } else {
        224
    };
    let fill: Rgba = match item_definition(items, item_id) {
        Some(definition) => translucent(
            definition.tint.r,
            definition.tint.g,
            definition.tint.b,
            alpha,
        ),
        None => translucent(140, 150, 162, alpha),
    };
    (fill, translucent(255, 255, 255, alpha / 3))
}

/// One more item has a picture behind the others, under its own id, unless it is a
/// building piece.
pub proof fn every_carried_item_has_a_picture(items: Seq<ItemDefinition>, next: ItemDefinition)
    ensures
        icons_of(Seq::empty()).len() == 0,
        next.deployable is Some && next.deployable->0.kind == DeployableKind::Building ==> icons_of(
            items.push(next),
        ) == icons_of(items),
        next.deployable is None || next.deployable->0.kind != DeployableKind::Building ==> icons_of(
            items.push(next),
        ) == icons_of(items).push((next.id@, "items/"@ + next.id@ + "/icon.png"@)),
{
    assert(items.push(next).drop_last() =~= items);
}

/// Small letters become the capital ones in their order, and no other character changes.
pub proof fn only_small_letters_change(c: char)
    ensures
        'a' <= c && c <= 'z' ==> ascii_capital(c) as int - 'A' as int == c as int - 'a' as int,
        !('a' <= c && c <= 'z') ==> ascii_capital(c) == c,
{
}

/// A picture reads as its item and its path.
pub proof fn pictures_read_item_and_path(paths: Seq<IconPath>, i: int)
    requires
        0 <= i < paths.len(),
    ensures
        path_texts(paths).len() == paths.len(),
        path_texts(paths)[i].0 == paths[i].item_id@,
        path_texts(paths)[i].1 == paths[i].path@,
{
}

} // verus!
