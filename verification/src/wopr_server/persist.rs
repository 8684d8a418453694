//! Persisted datasets: the raw bytes of each sequential dataset, no translation.
use vstd::prelude::*;
use crate::wopr_core::dataset::{self, Catalog, DsContent};

verus! {

/// The file contents of a sequential dataset: its fixed-length records back to
/// back, never a newline inserted.
pub open spec fn file_bytes(rs: Seq<Vec<u8>>) -> Seq<u8> {
    dataset::records_view(rs).flatten()
}

/// `files` names each sequential dataset of `cat` once, with its bytes, and
/// nothing else.
pub open spec fn dump_matches(files: Seq<(String, Vec<u8>)>, cat: Catalog) -> bool {
    &&& forall|i: int| 0 <= i < files.len() ==> {
        &&& cat.sets@.contains_key(#[trigger] files[i].0@)
        &&& cat.sets@[files[i].0@].content matches DsContent::Sequential(rs) && files[i].1@
            == file_bytes(rs@)
    }
    &&& forall|i: int, j: int| 0 <= i < j < files.len() ==> #[trigger] files[i].0@ != #[trigger] files[j].0@
    &&& forall|k: Seq<char>|
        #[trigger] cat.sets@.contains_key(k) && cat.sets@[k].content is Sequential ==> exists|i: int|
            0 <= i < files.len() && files[i].0@ == k
}

fn concat_records(rs: &Vec<Vec<u8>>) -> (r: Vec<u8>)
    ensures
        r@ == file_bytes(rs@),
{
    let mut r: Vec<u8> = Vec::new();
    let mut i: usize = 0;
    while i < rs.len()
        invariant
            i <= rs@.len(),
            r@ == dataset::records_view(rs@.take(i as int)).flatten(),
        decreases rs.len() - i,
    {
        let mut b = rs[i].clone();
        assert(b@ == rs@[i as int]@);
        let ghost before = r@;
        r.append(&mut b);
        proof {
            let v = dataset::records_view(rs@.take(i as int));
            assert(dataset::records_view(rs@.take(i + 1)) =~= v.push(rs@[i as int]@));
            v.lemma_flatten_push(rs@[i as int]@);
        }
        i += 1;
    }
    assert(rs@.take(rs@.len() as int) =~= rs@);
    r
}

/// The files to write for a catalog: one per sequential dataset.
pub fn dump_files(cat: &Catalog) -> (r: Vec<(String, Vec<u8>)>)
    ensures
        dump_matches(r@, *cat),
{
    let keys = cat.sets.keys();
    let ghost ks = keys@.map_values(|k: String| k@);
    let mut r: Vec<(String, Vec<u8>)> = Vec::new();
    let ghost mut taken: Seq<int> = Seq::empty();
    let ghost mut pos: Seq<int> = Seq::empty();
    let mut i: usize = 0;
    while i < keys.len()
        invariant
            i <= keys@.len(),
            ks == keys@.map_values(|k: String| k@),
            ks.no_duplicates(),
            ks.to_set() == cat.sets@.dom(),
            taken.len() == r@.len(),
            forall|a: int| 0 <= a < taken.len() ==> 0 <= #[trigger] taken[a] < i && ks[taken[a]] == r@[a].0@,
            forall|a: int, b: int| 0 <= a < b < taken.len() ==> #[trigger] taken[a] < #[trigger] taken[b],
            forall|a: int| 0 <= a < r@.len() ==> {
                &&& cat.sets@.contains_key(#[trigger] r@[a].0@)
                &&& cat.sets@[r@[a].0@].content matches DsContent::Sequential(rs) && r@[a].1@
                    == file_bytes(rs@)
            },
            pos.len() == i,
            forall|j: int| 0 <= j < i && cat.sets@[ks[j]].content is Sequential ==> 0 <= #[trigger] pos[j]
                < r@.len() && r@[pos[j]].0@ == ks[j],
        decreases keys.len() - i,
    {
        let kv = crate::text::chars_of(keys[i].as_str());
        match cat.sets.get(&kv) {
            Some(ds) => match &ds.content {
                DsContent::Sequential(rs) => {
                    let bytes = concat_records(rs);
                    r.push((keys[i].clone(), bytes));
                    proof {
                        taken = taken.push(i as int);
                        pos = pos.push(r@.len() - 1);
                        assert(r@[r@.len() - 1].0@ == ks[i as int]);
                    }
                },
                DsContent::Pds(_) => {
                    proof {
                        pos = pos.push(-1);
                    }
                },
            },
            None => {
                proof {
                    assert(ks.to_set().contains(ks[i as int]));
                    pos = pos.push(-1);
                }
            },
        }
        i += 1;
    }
    proof {
        assert forall|a: int, b: int| 0 <= a < b < r@.len() implies #[trigger] r@[a].0@ != #[trigger] r@[b].0@ by {
            assert(taken[a] < taken[b]);
        }
        assert forall|k: Seq<char>| #[trigger] cat.sets@.contains_key(k) && cat.sets@[k].content is Sequential implies exists|a: int|
            0 <= a < r@.len() && r@[a].0@ == k by {
            assert(ks.to_set().contains(k));
            let j = choose|j: int| 0 <= j < ks.len() && ks[j] == k;
            assert(r@[pos[j]].0@ == k);
        }
    }
    r
}

/// The dump of a newly built system's catalog is one file, named after the
/// golden dataset, holding its one 80-byte record as it is: 0x40 padding and no
/// 0x0A byte.  The JCL library is partitioned and is not dumped.
pub proof fn lemma_golden_dump(files: Seq<(String, Vec<u8>)>, cat: Catalog)
    requires
        dataset::is_seeded_catalog(cat),
        dump_matches(files, cat),
    ensures
        files.len() == 1,
        files[0].0@ == dataset::golden_dsn(),
        files[0].1@ == dataset::CUST_GOLDEN@,
        files[0].1@.len() == 80,
        forall|i: int| 0 <= i < 80 ==> #[trigger] files[0].1@[i] != 0x0Au8,
        files[0].1@[79] == 0x40u8,
{
    let g = dataset::golden_dsn();
    assert(cat.sets@.contains_key(g));
    let k = choose|i: int| 0 <= i < files.len() && files[i].0@ == g;
    assert forall|i: int| 0 <= i < files.len() implies files[i].0@ == g by {
        assert(cat.sets@.dom().contains(files[i].0@));
    }
    if files.len() > 1 {
        assert(files[0].0@ != files[1].0@);
        assert(false);
    }
    let c = cat.sets@[g];
    if let DsContent::Sequential(rs) = c.content {
        assert(seq![dataset::CUST_GOLDEN@].flatten() =~= dataset::CUST_GOLDEN@) by {
            seq![dataset::CUST_GOLDEN@].lemma_flatten_one_element();
        }
    }
}

} // verus!
