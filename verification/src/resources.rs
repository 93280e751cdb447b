//! Selection of front-end resources to stage into the proving key directory.
//!
//! The front-end ships proving key material beside its binary. At setup time
//! every shipped file whose name carries the `bin` extension is copied into
//! the proving key directory, and so is the whole content of every shipped
//! directory whose name ends in `.bin`. The directory walk and the copies are
//! filesystem work and stay with the caller; this module decides, from the
//! listing, exactly which files are staged. Names are carried as their bytes.

use vstd::prelude::*;

verus! {

/// The byte strings a sequence of byte vectors holds.
pub open spec fn byte_views(names: Seq<Vec<u8>>) -> Seq<Seq<u8>> {
    names.map_values(|name: Vec<u8>| name@)
}

/// The bytes of `.bin`: dot, b, i, n.
pub open spec fn bin_suffix() -> Seq<u8> {
    seq![46u8, 98u8, 105u8, 110u8]
}

/// Holds of a name that ends in `.bin`.
pub open spec fn has_bin_suffix(name: Seq<u8>) -> bool {
    name.len() >= 4 && name.subrange(name.len() - 4, name.len() as int) == bin_suffix()
}

/// Holds of a file name whose extension is `bin`: it ends in `.bin` and the
/// dot does not open the name, so something stands before the extension.
pub open spec fn has_bin_extension(name: Seq<u8>) -> bool {
    name.len() >= 5 && has_bin_suffix(name)
}

/// Whether `name` ends in the four bytes of `.bin`.
pub fn ends_with_bin(name: &Vec<u8>) -> (result: bool)
    ensures
        result == has_bin_suffix(name@),
{
    let length = name.len();
    if length < 4 {
        return false;
    }
    let result = name[length - 4] == 46 && name[length - 3] == 98 && name[length - 2] == 105
        && name[length - 1] == 110;
    proof {
        let tail = name@.subrange(length - 4, length as int);
        if result {
            assert(tail =~= bin_suffix());
        } else {
            assert(tail[0] == name@[length - 4]);
            assert(tail[1] == name@[length - 3]);
            assert(tail[2] == name@[length - 2]);
            assert(tail[3] == name@[length - 1]);
        }
    }
    result
}

/// One entry of the resource directory, as its listing shows it: the entry's
/// name, whether it is a regular file, and, for a directory, the names of
/// the files inside it.
pub struct ResourceEntry {
    /// File name of the entry, as bytes.
    pub name: Vec<u8>,
    /// Whether the entry is a regular file.
    pub is_file: bool,
    /// For a directory, the names of the files inside it; empty for a file.
    pub children: Vec<Vec<u8>>,
}

/// What one entry amounts to in contracts.
pub struct ResourceEntryModel {
    /// File name of the entry.
    pub name: Seq<u8>,
    /// Whether the entry is a regular file.
    pub is_file: bool,
    /// For a directory, the names of the files inside it.
    pub children: Seq<Seq<u8>>,
}

impl View for ResourceEntry {
    type V = ResourceEntryModel;

    open spec fn view(&self) -> ResourceEntryModel {
        ResourceEntryModel {
            name: self.name@,
            is_file: self.is_file,
            children: byte_views(self.children@),
        }
    }
}

/// The names one entry stages: a regular file with the `bin` extension
/// stages itself; a directory whose name ends in `.bin` stages everything
/// inside it; every other entry stages nothing.
pub open spec fn staged_of_entry(entry: ResourceEntryModel) -> Seq<Seq<u8>> {
    if entry.is_file {
        if has_bin_extension(entry.name) {
            seq![entry.name]
        } else {
            Seq::empty()
        }
    } else {
        if has_bin_suffix(entry.name) {
            entry.children
        } else {
            Seq::empty()
        }
    }
}

/// The names a whole listing stages, in listing order.
pub open spec fn staged_spec(entries: Seq<ResourceEntryModel>) -> Seq<Seq<u8>>
    decreases entries.len(),
{
    if entries.len() == 0 {
        Seq::empty()
    } else {
        staged_of_entry(entries.first()) + staged_spec(entries.drop_first())
    }
}

/// Staging one more entry appends exactly what that entry stages.
proof fn lemma_staged_push(entries: Seq<ResourceEntryModel>, entry: ResourceEntryModel)
    ensures
        staged_spec(entries.push(entry)) == staged_spec(entries) + staged_of_entry(entry),
    decreases entries.len(),
{
    if entries.len() == 0 {
        let pushed = entries.push(entry);
        assert(pushed.first() == entry);
        assert(pushed.drop_first() =~= Seq::<ResourceEntryModel>::empty());
        assert(staged_spec(pushed.drop_first()) == Seq::<Seq<u8>>::empty());
        assert(staged_spec(pushed) =~= staged_of_entry(entry));
        assert(staged_spec(entries) == Seq::<Seq<u8>>::empty());
        assert(staged_spec(entries) + staged_of_entry(entry) =~= staged_of_entry(entry));
    } else {
        assert(entries.push(entry).drop_first() =~= entries.drop_first().push(entry));
        lemma_staged_push(entries.drop_first(), entry);
        assert(entries.push(entry).first() == entries.first());
        assert(staged_spec(entries.push(entry)) =~= staged_spec(entries) + staged_of_entry(
            entry,
        ));
    }
}

/// Copies a byte string.
fn copy_name(name: &Vec<u8>) -> (result: Vec<u8>)
    ensures
        result@ == name@,
{
    let mut result: Vec<u8> = Vec::new();
    let mut i: usize = 0;
    while i < name.len()
        invariant
            i <= name@.len(),
            result@ =~= name@.subrange(0, i as int),
        decreases name@.len() - i,
    {
        result.push(name[i]);
        i = i + 1;
    }
    proof {
        assert(result@ =~= name@);
    }
    result
}

/// Selects, from a resource directory listing, the names of the files that
/// are staged into the proving key directory, in listing order.
pub fn staged_resources(entries: &Vec<ResourceEntry>) -> (result: Vec<Vec<u8>>)
    ensures
        byte_views(result@) == staged_spec(entries@.map_values(|entry: ResourceEntry| entry@)),
{
    let ghost models = entries@.map_values(|entry: ResourceEntry| entry@);
    let mut result: Vec<Vec<u8>> = Vec::new();
    let mut i: usize = 0;
    proof {
        assert(byte_views(result@) =~= staged_spec(models.subrange(0, 0)));
    }
    while i < entries.len()
        invariant
            i <= entries@.len(),
            models == entries@.map_values(|entry: ResourceEntry| entry@),
            byte_views(result@) =~= staged_spec(models.subrange(0, i as int)),
        decreases entries@.len() - i,
    {
        let entry = &entries[i];
        proof {
            assert(models[i as int] == entry@);
        }
        let ghost before = byte_views(result@);
        let suffixed = ends_with_bin(&entry.name);
        if entry.is_file {
            if suffixed && entry.name.len() >= 5 {
                result.push(copy_name(&entry.name));
                proof {
                    assert(staged_of_entry(models[i as int]) =~= seq![entry.name@]);
                    assert(byte_views(result@) =~= before + staged_of_entry(models[i as int]));
                }
            } else {
                proof {
                    assert(staged_of_entry(models[i as int]) == Seq::<Seq<u8>>::empty());
                    assert(byte_views(result@) =~= before + staged_of_entry(models[i as int]));
                }
            }
        } else {
            if suffixed {
                let mut j: usize = 0;
                while j < entry.children.len()
                    invariant
                        j <= entry.children@.len(),
                        byte_views(result@) =~= before + byte_views(entry.children@).subrange(
                            0,
                            j as int,
                        ),
                    decreases entry.children@.len() - j,
                {
                    let copied = copy_name(&entry.children[j]);
                    let ghost prev = result@;
                    result.push(copied);
                    proof {
                        assert(byte_views(result@) =~= byte_views(prev).push(
                            entry.children@[j as int]@,
                        ));
                        assert(byte_views(entry.children@).subrange(0, j + 1) =~= byte_views(
                            entry.children@,
                        ).subrange(0, j as int).push(entry.children@[j as int]@));
                        assert(byte_views(result@) =~= before + byte_views(
                            entry.children@,
                        ).subrange(0, j + 1));
                    }
                    j = j + 1;
                }
                proof {
                    assert(byte_views(entry.children@).subrange(
                        0,
                        entry.children@.len() as int,
                    ) =~= byte_views(entry.children@));
                    assert(staged_of_entry(models[i as int]) == byte_views(entry.children@));
                    assert(byte_views(result@) =~= before + staged_of_entry(models[i as int]));
                }
            } else {
                proof {
                    assert(staged_of_entry(models[i as int]) == Seq::<Seq<u8>>::empty());
                    assert(byte_views(result@) =~= before + staged_of_entry(models[i as int]));
                }
            }
        }
        proof {
            lemma_staged_push(models.subrange(0, i as int), models[i as int]);
            assert(models.subrange(0, i + 1) =~= models.subrange(0, i as int).push(
                models[i as int],
            ));
            assert(byte_views(result@) =~= staged_spec(models.subrange(0, i + 1)));
        }
        i = i + 1;
    }
    proof {
        assert(models.subrange(0, models.len() as int) =~= models);
    }
    result
}

} // verus!
