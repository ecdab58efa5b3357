//! The quantity fields of the recipes: one text per recipe, kept while the
//! selection moves.
use vstd::prelude::*;
use crate::text::{
    digits, is_digit, keep_digits, only_digits, quantity_of, same_text,
    written_quantity_is_read_back,
};

verus! {

/// The text typed for one recipe.
pub struct QuantityField {
    pub recipe_id: String,
    pub text: String,
}

/// The text of the first field for `id`.
pub open spec fn field_of(fields: Seq<QuantityField>, id: Seq<char>) -> Option<Seq<char>>
    decreases fields.len(),
{
    if fields.len() == 0 {
        None
    } else if fields[0].recipe_id@ == id {
        Some(fields[0].text@)
    } else {
        field_of(fields.drop_first(), id)
    }
}

/// The quantity fields of all recipes.
pub struct QuantityBook {
    pub fields: Vec<QuantityField>,
}

impl View for QuantityBook {
    type V = Map<Seq<char>, Seq<char>>;

    open spec fn view(&self) -> Map<Seq<char>, Seq<char>> {
        Map::new(
            |id: Seq<char>| field_of(self.fields@, id) is Some,
            |id: Seq<char>| field_of(self.fields@, id)->0,
        )
    }
}

proof fn field_of_push(fields: Seq<QuantityField>, field: QuantityField, id: Seq<char>)
    ensures
        field_of(fields.push(field), id) == match field_of(fields, id) {
            Some(text) => Some(text),
            None => if field.recipe_id@ == id {
                Some(field.text@)
            } else {
                None
            },
        },
    decreases fields.len(),
{
    let longer = fields.push(field);
    if fields.len() == 0 {
        assert(longer.drop_first() =~= fields);
    } else {
        assert(longer.drop_first() =~= fields.drop_first().push(field));
        field_of_push(fields.drop_first(), field, id);
    }
}

proof fn field_of_update(fields: Seq<QuantityField>, at: int, field: QuantityField, id: Seq<char>)
    requires
        0 <= at < fields.len(),
        fields[at].recipe_id@ == field.recipe_id@,
        forall|k: int| 0 <= k < at ==> (#[trigger] fields[k]).recipe_id@ != field.recipe_id@,
    ensures
        field_of(fields.update(at, field), id) == if id == field.recipe_id@ {
            Some(field.text@)
        } else {
            field_of(fields, id)
        },
        field_of(fields, field.recipe_id@) is Some,
    decreases fields.len(),
{
    let changed = fields.update(at, field);
    if at == 0 {
        assert(changed.drop_first() =~= fields.drop_first());
    } else {
        assert(fields[0].recipe_id@ != field.recipe_id@);
        assert(changed.drop_first() =~= fields.drop_first().update(at - 1, field));
        assert forall|k: int| 0 <= k < at - 1 implies (
        #[trigger] fields.drop_first()[k]).recipe_id@ != field.recipe_id@ by {
            assert(fields.drop_first()[k] == fields[k + 1]);
        }
        field_of_update(fields.drop_first(), at - 1, field, id);
    }
}

proof fn field_of_absent(fields: Seq<QuantityField>, id: Seq<char>)
    requires
        forall|k: int| 0 <= k < fields.len() ==> (#[trigger] fields[k]).recipe_id@ != id,
    ensures
        field_of(fields, id) is None,
    decreases fields.len(),
{
    if fields.len() > 0 {
        assert(fields[0].recipe_id@ != id);
        assert forall|k: int| 0 <= k < fields.len() - 1 implies (
        #[trigger] fields.drop_first()[k]).recipe_id@ != id by {
            assert(fields.drop_first()[k] == fields[k + 1]);
        }
        field_of_absent(fields.drop_first(), id);
    }
}

/// The text that a recipe's field shows: "1" until something was typed.
pub open spec fn shown_text(book: Map<Seq<char>, Seq<char>>, id: Seq<char>) -> Seq<char> {
    if book.dom().contains(id) {
        book[id]
    } else {
        "1"@
    }
}

impl QuantityBook {
    /// A book without fields.
    pub fn new() -> (r: Self)
        ensures
            r@ == Map::<Seq<char>, Seq<char>>::empty(),
            r.fields.len() == 0,
    {
        let r = QuantityBook { fields: Vec::new() };
        proof {
            assert(r@ =~= Map::<Seq<char>, Seq<char>>::empty());
        }
        r
    }

    /// The text of a recipe's field.
    pub fn get(&self, id: &str) -> (r: Option<String>)
        ensures
            r is Some <==> self@.dom().contains(id@),
            r is Some ==> r->0@ == self@[id@],
    {
        let mut i: usize = 0;
        while i < self.fields.len()
            invariant
                i <= self.fields.len(),
                forall|k: int| 0 <= k < i ==> (#[trigger] self.fields@[k]).recipe_id@ != id@,
            decreases self.fields.len() - i,
        {
            if same_text(self.fields[i].recipe_id.as_str(), id) {
                proof {
                    field_of_update(self.fields@, i as int, self.fields@[i as int], id@);
                    assert(self.fields@.update(i as int, self.fields@[i as int]) =~= self.fields@);
                }
                return Some(self.fields[i].text.clone());
            }
            i = i + 1;
        }
        proof {
            field_of_absent(self.fields@, id@);
        }
        None
    }

    /// Sets the text of a recipe's field and leaves the other fields alone.
    pub fn set(&mut self, id: &str, text: String)
        ensures
            final(self)@ == old(self)@.insert(id@, text@),
            final(self).fields.len() == old(self).fields.len() + if old(self)@.dom().contains(
                id@,
            ) {
                0int
            } else {
                1
            },
    {
        let mut i: usize = 0;
        let ghost before = self.fields@;
        let ghost old_view = self@;
        while i < self.fields.len()
            invariant
                i <= self.fields.len(),
                self.fields@ == before,
                self@ == old_view,
                *self == *old(self),
                forall|k: int| 0 <= k < i ==> (#[trigger] self.fields@[k]).recipe_id@ != id@,
            decreases self.fields.len() - i,
        {
            if same_text(self.fields[i].recipe_id.as_str(), id) {
                let field = QuantityField { recipe_id: id.to_owned(), text };
                self.fields.set(i, field);
                proof {
                    assert forall|key: Seq<char>| field_of(self.fields@, key) == (if key == id@ {
                        Some(text@)
                    } else {
                        field_of(before, key)
                    }) && field_of(before, id@) is Some by {
                        field_of_update(before, i as int, field, key);
                    }
                    assert(self@ =~= old_view.insert(id@, text@));
                }
                return;
            }
            i = i + 1;
        }
        let field = QuantityField { recipe_id: id.to_owned(), text };
        self.fields.push(field);
        proof {
            field_of_absent(before, id@);
            assert forall|key: Seq<char>| field_of(self.fields@, key) == (if key == id@ {
                Some(text@)
            } else {
                field_of(before, key)
            }) by {
                field_of_push(before, field, key);
            }
            assert(self@ =~= old_view.insert(id@, text@));
        }
    }

    /// Opens a recipe's field: a field that was never used starts at "1", and
    /// whatever is no digit is taken out. Returns the text.
    pub fn open_field(&mut self, id: &str) -> (r: String)
        ensures
            r@ == only_digits(shown_text(old(self)@, id@)),
            forall|i: int| 0 <= i < r@.len() ==> is_digit(#[trigger] r@[i]),
            final(self)@ == old(self)@.insert(id@, r@),
            final(self).fields.len() == old(self).fields.len() + if old(self)@.dom().contains(
                id@,
            ) {
                0int
            } else {
                1
            },
    {
        let text: String = match self.get(id) {
            Some(text) => text,
            None => "1".to_owned(),
        };
        let kept = keep_digits(text.as_str());
        self.set(id, kept.clone());
        kept
    }
}

/// The first field of an id is the one that counts.
pub proof fn first_field_of_the_id_counts(fields: Seq<QuantityField>, id: Seq<char>, k: int)
    requires
        0 <= k < fields.len(),
        fields[k].recipe_id@ == id,
        forall|i: int| 0 <= i < k ==> (#[trigger] fields[i]).recipe_id@ != id,
    ensures
        field_of(fields, id) == Some(fields[k].text@),
{
    field_of_update(fields, k, fields[k], id);
    assert(fields.update(k, fields[k]) =~= fields);
}

/// A field that was never used asks for one.
pub proof fn unused_field_asks_for_one(book: Map<Seq<char>, Seq<char>>, id: Seq<char>)
    ensures
        !book.dom().contains(id) ==> quantity_of(shown_text(book, id)) == Some(1u16),
        book.dom().contains(id) ==> shown_text(book, id) == book[id],
        forall|text: Seq<char>| #[trigger] shown_text(book.insert(id, text), id) == text,
{
    reveal_strlit("1");
    written_quantity_is_read_back(1);
    assert(digits(1) =~= "1"@);
}

} // verus!
