//! Finding a language's settings by the identifier that an editor gives.

use vstd::prelude::*;
use crate::config::{language_ids_of, PicklsConfig, PicklsLanguageConfig};
use crate::distinct::{all_distinct, entry_ids, first_repeated_id};
use crate::text::same_text;

verus! {

/// Whether `i` is the first place at which `id` stands.
pub open spec fn is_first_place_of(ids: Seq<Seq<char>>, id: Seq<char>, i: int) -> bool {
    &&& 0 <= i < ids.len()
    &&& ids[i] == id
    &&& forall|k: int| 0 <= k < i ==> #[trigger] ids[k] != id
}

/// Among identifiers that all differ, an identifier stands at no place but
/// its first.
pub proof fn lemma_one_place(ids: Seq<Seq<char>>, id: Seq<char>, i: int, j: int)
    requires
        all_distinct(ids),
        is_first_place_of(ids, id, i),
        0 <= j < ids.len(),
        ids[j] == id,
    ensures
        i == j,
{
    if i < j {
        assert(ids[i] != ids[j]);
    }
}

impl PicklsConfig {
    /// Whether no language has two entries.
    pub fn is_well_formed(&self) -> (valid: bool)
        ensures
            valid == self.well_formed(),
    {
        assert(entry_ids(self.languages@) =~= language_ids_of(self@.languages));
        first_repeated_id(&self.languages).is_none()
    }

    /// The settings of the language with exactly this identifier: those of
    /// the first entry that has it, which in a well-formed configuration is
    /// the only one. `None` exactly where no entry has it.
    pub fn language(&self, id: &str) -> (found: Option<&PicklsLanguageConfig>)
        ensures
            match found {
                Some(language) => exists|i: int|
                    is_first_place_of(language_ids_of(self@.languages), id@, i) && *language
                        == (#[trigger] self.languages[i]).1,
                None => !language_ids_of(self@.languages).contains(id@),
            },
    {
        let ghost ids = language_ids_of(self@.languages);
        let mut i: usize = 0;
        while i < self.languages.len()
            invariant
                i <= self.languages.len(),
                ids == language_ids_of(self@.languages),
                ids.len() == self.languages.len(),
                forall|k: int| 0 <= k < i ==> #[trigger] ids[k] != id@,
            decreases self.languages.len() - i,
        {
            if same_text(self.languages[i].0.as_str(), id) {
                assert(ids[i as int] == id@);
                assert(is_first_place_of(ids, id@, i as int));
                return Some(&self.languages[i].1);
            }
            i += 1;
        }
        assert(!ids.contains(id@));
        None
    }
}

} // verus!
