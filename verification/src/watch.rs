//! The brightness files that a listing of the LED directory says to read.
//!
//! A [`WatchList`] is filled entry by entry while the directory is listed. It
//! keeps the brightness file of every Caps Lock LED that was seen, each one
//! once, whatever the order and however often the entries came.

use vstd::prelude::*;
use crate::leds::{brightness_path, brightness_path_of, is_caps_lock_led, is_caps_lock_name};

verus! {

/// The text of each of `files`, in the same order.
pub open spec fn texts(files: Seq<String>) -> Seq<Seq<char>> {
    files.map_values(|file: String| file@)
}

/// The files to read once `name` has been seen in addition to what led to `files`.
pub open spec fn after_entry(files: Set<Seq<char>>, name: Seq<char>) -> Set<Seq<char>> {
    if is_caps_lock_name(name) {
        files.insert(brightness_path_of(name))
    } else {
        files
    }
}

/// The files to read once all of `names` have been seen, one after the other.
pub open spec fn after_entries(files: Set<Seq<char>>, names: Seq<Seq<char>>) -> Set<Seq<char>>
    decreases names.len(),
{
    if names.len() == 0 {
        files
    } else {
        after_entry(after_entries(files, names.drop_last()), names.last())
    }
}

/// The brightness files of the Caps Lock LEDs among `names`.
pub open spec fn led_files(names: Set<Seq<char>>) -> Set<Seq<char>> {
    Set::new(
        |path: Seq<char>|
            exists|name: Seq<char>|
                #[trigger] names.contains(name) && is_caps_lock_name(name) && path
                    == brightness_path_of(name),
    )
}

/// A set of brightness files, held as a list in which no path occurs twice.
pub struct WatchList {
    files: Vec<String>,
}

impl View for WatchList {
    type V = Set<Seq<char>>;

    closed spec fn view(&self) -> Set<Seq<char>> {
        texts(self.files@).to_set()
    }
}

/// Tells whether one of `files` has the text of `path`.
fn holds(files: &Vec<String>, path: &String) -> (found: bool)
    ensures
        found == texts(files@).contains(path@),
{
    let mut i: usize = 0;
    while i < files.len()
        invariant
            i <= files.len(),
            forall|k: int| 0 <= k < i ==> texts(files@)[k] != path@,
        decreases files.len() - i,
    {
        if files[i] == *path {
            assert(texts(files@)[i as int] == path@);
            return true;
        }
        i += 1;
    }
    false
}

impl WatchList {
    #[verifier::type_invariant]
    spec fn distinct(self) -> bool {
        texts(self.files@).no_duplicates()
    }

    /// The list that holds no file.
    pub fn new() -> (list: Self)
        ensures
            list@ == Set::<Seq<char>>::empty(),
    {
        WatchList { files: Vec::new() }
    }

    /// Takes note of the directory entry called `name`: the brightness file
    /// of a Caps Lock LED joins the list, any other entry leaves it as it is.
    pub fn observe_entry(&mut self, name: &str)
        ensures
            final(self)@ == after_entry(old(self)@, name@),
    {
        proof {
            use_type_invariant(&*self);
        }
        if is_caps_lock_led(name) {
            let path = brightness_path(name);
            if !holds(&self.files, &path) {
                let mut files: Vec<String> = Vec::new();
                std::mem::swap(&mut files, &mut self.files);
                let ghost before = texts(files@);
                files.push(path);
                proof {
                    assert(texts(files@) =~= before.push(path@));
                    before.lemma_push_to_set_commute(path@);
                }
                self.files = files;
            } else {
                assert(self@.insert(path@) =~= self@);
            }
        }
    }

    /// The files of the list, each one once.
    pub fn files(&self) -> (files: &Vec<String>)
        ensures
            texts(files@).no_duplicates(),
            texts(files@).to_set() == self@,
    {
        proof {
            use_type_invariant(self);
        }
        &self.files
    }

    /// The number of files in the list.
    pub fn len(&self) -> (count: usize)
        ensures
            count == self@.len(),
    {
        proof {
            use_type_invariant(self);
            texts(self.files@).unique_seq_to_set();
        }
        self.files.len()
    }
}

/// Seeing a listing adds the brightness files of its Caps Lock LEDs to the
/// list and nothing else. Which files those are depends on which names the
/// listing held, not on their order nor on how often each came.
pub proof fn law_listing_adds_led_files(files: Set<Seq<char>>, names: Seq<Seq<char>>)
    ensures
        after_entries(files, names) == files.union(led_files(names.to_set())),
    decreases names.len(),
{
    let all = names.to_set();
    if names.len() == 0 {
        assert forall|path: Seq<char>| !led_files(all).contains(path) by {
            assert forall|name: Seq<char>| !all.contains(name) by {
                assert(!names.contains(name));
            }
        }
    } else {
        let earlier = names.drop_last();
        let last = names.last();
        law_listing_adds_led_files(files, earlier);
        assert(all == earlier.to_set().insert(last)) by {
            assert(names =~= earlier.push(last));
            earlier.lemma_push_to_set_commute(last);
        }
        assert forall|path: Seq<char>|
            led_files(all).contains(path) == (led_files(earlier.to_set()).contains(path) || (
            is_caps_lock_name(last) && path == brightness_path_of(last))) by {
            if led_files(earlier.to_set()).contains(path) {
                let name = choose|name: Seq<char>|
                    #[trigger] earlier.to_set().contains(name) && is_caps_lock_name(name) && path
                        == brightness_path_of(name);
                assert(all.contains(name));
            }
            if is_caps_lock_name(last) && path == brightness_path_of(last) {
                assert(all.contains(last));
            }
        }
    }
    assert(after_entries(files, names) =~= files.union(led_files(all)));
}

/// A list that starts empty and sees a listing ends as exactly the brightness
/// files of the listing's Caps Lock LEDs.
pub proof fn law_fresh_list_holds_led_files(names: Seq<Seq<char>>)
    ensures
        after_entries(Set::empty(), names) == led_files(names.to_set()),
{
    law_listing_adds_led_files(Set::empty(), names);
    assert(Set::<Seq<char>>::empty().union(led_files(names.to_set())) =~= led_files(
        names.to_set(),
    ));
}

} // verus!
