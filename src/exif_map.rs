use vstd::prelude::*;

use crate::iter::{all_entries, views, EntryView, ExifIter, ParsedExifEntry};
use crate::tags::ExifTag;
use crate::values::{EntryValue, ValueView};

verus! {

/// The value that the last successfully decoded entry with this tag in `s`
/// holds.
pub open spec fn last_value(s: Seq<EntryView>, tag: ExifTag) -> Option<ValueView>
    decreases s.len(),
{
    if s.len() == 0 {
        None
    } else if s.last().tag == tag && s.last().result is Ok {
        Some(s.last().result->Ok_0)
    } else {
        last_value(s.drop_last(), tag)
    }
}

/// The tag to value map that folding `s` in order gives: a later entry for a
/// tag overwrites an earlier one, a failed entry is left out.
pub open spec fn fold_entries(s: Seq<EntryView>) -> Map<ExifTag, ValueView> {
    Map::new(|t: ExifTag| last_value(s, t) is Some, |t: ExifTag| last_value(s, t)->Some_0)
}

/// The entries of an [`ExifIter`], drained and looked up by tag.
pub struct Exif {
    entries: Vec<ParsedExifEntry>,
}

impl View for Exif {
    type V = Map<ExifTag, ValueView>;

    closed spec fn view(&self) -> Map<ExifTag, ValueView> {
        fold_entries(views(self.entries@))
    }
}

impl Exif {
    /// Drains a restarted copy of `iter` into a map.
    pub fn from_iter(iter: &ExifIter) -> (r: Exif)
        requires
            iter.wf(),
        ensures
            r@ == fold_entries(all_entries(iter@)),
    {
        Exif { entries: iter.entries() }
    }

    /// The value stored for `tag`.
    pub fn get(&self, tag: ExifTag) -> (r: Option<&EntryValue>)
        ensures
            match r {
                Some(v) => self@.contains_key(tag) && self@[tag] == v@,
                None => !self@.contains_key(tag),
            },
    {
        let ghost all = views(self.entries@);
        let mut j: usize = self.entries.len();
        proof {
            assert(self.entries@.take(j as int) =~= self.entries@);
        }
        while j > 0
            invariant
                j <= self.entries@.len(),
                all == views(self.entries@),
                last_value(views(self.entries@.take(j as int)), tag) == last_value(all, tag),
            decreases j,
        {
            let e = &self.entries[j - 1];
            proof {
                assert(views(self.entries@.take(j as int)).last() == e@);
                assert(views(self.entries@.take(j as int)).drop_last() =~= views(
                    self.entries@.take(j - 1)));
            }
            if e.tag == tag {
                match &e.result {
                    Ok(v) => {
                        return Some(v);
                    },
                    Err(_) => {},
                }
            }
            j = j - 1;
        }
        proof {
            assert(views(self.entries@.take(0)) =~= Seq::<EntryView>::empty());
        }
        None
    }
}

} // verus!
