//! File-dialog filters: named glob patterns, carried to and from the host
//! as a zero-separated byte list (`name 0 pattern 0 name 0 pattern 0 ...`).

use vstd::prelude::*;
use vstd::utf8::encode_utf8;
use crate::text::{from_host_str_lossy, sjis_decoding};

verus! {

/// One file filter: a display name and the glob pattern it stands for.
#[derive(Debug, Clone, PartialEq, Eq, Hash)]
pub struct FileFilter {
    /// The name shown in the dialog.
    pub name: String,
    /// The glob pattern, such as `*.avi`.
    pub blob_pattern: String,
}

/// An ordered list of file filters.
#[derive(Debug, Clone, PartialEq, Eq, Hash)]
pub struct FileFilters(Vec<FileFilter>);

/// The zero-separated byte list a filter list is handed to the host as:
/// for each filter its name, a zero, its pattern, and a zero.
pub open spec fn filter_list_bytes(fs: Seq<FileFilter>) -> Seq<u8>
    decreases fs.len(),
{
    if fs.len() == 0 {
        Seq::empty()
    } else {
        encode_utf8(fs[0].name@) + seq![0u8] + encode_utf8(fs[0].blob_pattern@) + seq![0u8]
            + filter_list_bytes(fs.drop_first())
    }
}

impl FileFilters {
    /// The filters, in order.
    pub closed spec fn filters(&self) -> Seq<FileFilter> {
        self.0@
    }

    /// An empty filter list.
    pub fn new() -> (r: Self)
        ensures
            r.filters().len() == 0,
    {
        FileFilters(Vec::new())
    }

    /// Appends one filter.
    pub fn add_filter(&mut self, name: String, blob_pattern: String)
        ensures
            final(self).filters() == old(self).filters().push(
                FileFilter { name, blob_pattern },
            ),
    {
        self.0.push(FileFilter { name, blob_pattern });
    }

    /// Removes every filter.
    pub fn clear(&mut self)
        ensures
            final(self).filters().len() == 0,
    {
        self.0.clear();
    }

    /// How many filters the list holds.
    pub fn len(&self) -> (r: usize)
        ensures
            r == self.filters().len(),
    {
        self.0.len()
    }

    /// The filter at one position.
    pub fn filter_at(&self, i: usize) -> (r: &FileFilter)
        requires
            i < self.filters().len(),
        ensures
            *r == self.filters()[i as int],
    {
        &self.0[i]
    }

    /// Renders the list as the host's zero-separated byte form.
    pub fn to_c_string(&self) -> (r: Vec<u8>)
        ensures
            r@ == filter_list_bytes(self.filters()),
    {
        let n = self.0.len();
        let mut out: Vec<u8> = Vec::new();
        let mut i: usize = 0;
        proof {
            assert(self.filters().skip(0) =~= self.filters());
            assert(out@ + filter_list_bytes(self.filters()) =~= filter_list_bytes(self.filters()));
        }
        while i < n
            invariant
                n == self.filters().len(),
                i <= n,
                filter_list_bytes(self.filters()) == out@ + filter_list_bytes(
                    self.filters().skip(i as int),
                ),
            decreases n - i,
        {
            let ghost before = out@;
            let f = &self.0[i];
            push_bytes(&mut out, f.name.as_str().as_bytes());
            out.push(0);
            push_bytes(&mut out, f.blob_pattern.as_str().as_bytes());
            out.push(0);
            proof {
                let fs = self.filters();
                let rest = fs.skip(i as int);
                assert(rest[0] == fs[i as int]);
                assert(rest.drop_first() =~= fs.skip(i as int + 1));
                assert(out@ =~= before + (encode_utf8(fs[i as int].name@) + seq![0u8]
                    + encode_utf8(fs[i as int].blob_pattern@) + seq![0u8]));
                assert(out@ + filter_list_bytes(fs.skip(i as int + 1)) =~= before
                    + filter_list_bytes(rest));
            }
            i += 1;
        }
        proof {
            assert(self.filters().skip(n as int) =~= Seq::<FileFilter>::empty());
            assert(out@ + filter_list_bytes(Seq::<FileFilter>::empty()) =~= out@);
        }
        out
    }
}

impl Default for FileFilters {
    /// An empty filter list.
    fn default() -> (r: Self)
        ensures
            r.filters().len() == 0,
    {
        FileFilters(Vec::new())
    }
}

fn push_bytes(out: &mut Vec<u8>, b: &[u8])
    ensures
        final(out)@ == old(out)@ + b@,
{
    let n = b.len();
    let mut i: usize = 0;
    while i < n
        invariant
            n == b@.len(),
            i <= n,
            out@ == old(out)@ + b@.subrange(0, i as int),
        decreases n - i,
    {
        let v = *vstd::slice::slice_index_get(b, i);
        out.push(v);
        proof {
            assert(old(out)@ + b@.subrange(0, i as int + 1) =~= (old(out)@ + b@.subrange(
                0,
                i as int,
            )).push(b@[i as int]));
        }
        i += 1;
    }
    proof {
        assert(b@.subrange(0, n as int) =~= b@);
    }
}

/// The components of a byte list split on every zero: the maximal
/// zero-free runs, one more than the number of zeros.
pub open spec fn split_nul(b: Seq<u8>) -> Seq<Seq<u8>>
    decreases b.len(),
{
    match b.index_of_first(0u8) {
        Some(i) => if 0 <= i < b.len() {
            seq![b.take(i)] + split_nul(b.skip(i + 1))
        } else {
            seq![b]
        },
        None => seq![b],
    }
}

/// Splits a byte list on every zero byte, as the host's filter lists and
/// other zero-separated tables demand.
pub fn split_nul_components(b: &[u8]) -> (r: Vec<Vec<u8>>)
    ensures
        r.deep_view() == split_nul(b@),
        forall|k: int| 0 <= k < r.deep_view().len() ==> (#[trigger] r.deep_view()[k]).len()
            <= b@.len(),
{
    let n = b.len();
    let mut out: Vec<Vec<u8>> = Vec::new();
    let mut pos: usize = 0;
    proof {
        assert(b@.skip(0) =~= b@);
        assert(out.deep_view() =~= Seq::<Seq<u8>>::empty());
        assert(out.deep_view() + split_nul(b@) =~= split_nul(b@));
    }
    loop
        invariant
            n == b@.len(),
            pos <= n,
            split_nul(b@) == out.deep_view() + split_nul(b@.skip(pos as int)),
            forall|k: int| 0 <= k < out.deep_view().len() ==> (#[trigger] out.deep_view()[k]).len()
                <= b@.len(),
        decreases n - pos,
    {
        let ghost rem = b@.skip(pos as int);
        let mut j: usize = pos;
        while j < n && *vstd::slice::slice_index_get(b, j) != 0
            invariant
                n == b@.len(),
                pos <= j <= n,
                forall|t: int| pos <= t < j ==> b@[t] != 0,
            decreases n - j,
        {
            j += 1;
        }
        let part = vstd::slice::slice_to_vec(vstd::slice::slice_subrange(b, pos, j));
        proof {
            rem.index_of_first_ensures(0u8);
            assert(part@ =~= rem.take(j as int - pos as int));
            if j < n {
                // a zero sits at offset j - pos of the remainder, none before
                assert(rem[j as int - pos as int] == 0);
                assert(rem.contains(0u8)) by {
                    assert(rem[j as int - pos as int] == 0);
                }
                let fi = rem.index_of_first(0u8).unwrap();
                assert(forall|t: int| 0 <= t < j as int - pos as int ==> rem[t] != 0);
                assert(fi == j as int - pos as int) by {
                    if fi < j as int - pos as int {
                        assert(rem[fi] == 0);
                    }
                    if fi > j as int - pos as int {
                        assert(rem[j as int - pos as int] != 0);
                    }
                }
                assert(split_nul(rem) == seq![rem.take(fi)] + split_nul(rem.skip(fi + 1)));
                assert(rem.skip(fi + 1) =~= b@.skip(j as int + 1));
            } else {
                // no zero in the remainder
                assert(!rem.contains(0u8)) by {
                    if rem.contains(0u8) {
                        let w = choose|w: int| 0 <= w < rem.len() && rem[w] == 0;
                        assert(b@[pos + w] == 0);
                    }
                }
                assert(split_nul(rem) == seq![rem]);
                assert(part@ =~= rem);
            }
        }
        let ghost prev_deep = out.deep_view();
        let ghost part_deep = part.deep_view();
        proof {
            assert(part_deep =~= part@);
        }
        out.push(part);
        proof {
            assert(out.deep_view() =~= prev_deep + seq![part@]);
        }
        if j < n {
            proof {
                assert(prev_deep + (seq![part@] + split_nul(b@.skip(j as int + 1))) =~= (prev_deep
                    + seq![part@]) + split_nul(b@.skip(j as int + 1)));
                assert(split_nul(b@) == out.deep_view() + split_nul(b@.skip(j as int + 1)));
            }
            pos = j + 1;
        } else {
            proof {
                assert(prev_deep + seq![rem] =~= prev_deep + split_nul(rem));
                assert(out.deep_view() =~= split_nul(b@));
            }
            return out;
        }
    }
}

/// Parses the host's zero-separated filter list: consecutive component
/// pairs become (name, pattern) filters, decoded from the host's code
/// page; a trailing unpaired component is ignored.
pub fn filters_from_host_list(b: &[u8]) -> (r: FileFilters)
    requires
        b@.len() <= 0x100_0000,
    ensures
        r.filters().len() == split_nul(b@).len() / 2,
        forall|k: int|
            0 <= k < r.filters().len() ==> (#[trigger] r.filters()[k]).name@ == sjis_decoding(
                split_nul(b@)[2 * k],
            ).0 && r.filters()[k].blob_pattern@ == sjis_decoding(split_nul(b@)[2 * k + 1]).0,
{
    let parts = split_nul_components(b);
    let mut filters = FileFilters::new();
    let pairs = parts.len() / 2;
    let mut k: usize = 0;
    while k < pairs
        invariant
            parts.deep_view() == split_nul(b@),
            forall|t: int|
                0 <= t < parts.deep_view().len() ==> (#[trigger] parts.deep_view()[t]).len()
                    <= b@.len(),
            b@.len() <= 0x100_0000,
            pairs == parts@.len() / 2,
            parts@.len() <= usize::MAX,
            k <= pairs,
            filters.filters().len() == k,
            forall|t: int|
                0 <= t < k ==> (#[trigger] filters.filters()[t]).name@ == sjis_decoding(
                    split_nul(b@)[2 * t],
                ).0 && filters.filters()[t].blob_pattern@ == sjis_decoding(
                    split_nul(b@)[2 * t + 1],
                ).0,
        decreases pairs - k,
    {
        proof {
            assert(2 * k as int + 1 < parts@.len()) by {
                vstd::arithmetic::div_mod::lemma_fundamental_div_mod(parts@.len() as int, 2);
            }
            assert(parts.deep_view()[2 * k as int] == parts@[2 * k as int]@);
            assert(parts.deep_view()[2 * k as int + 1] == parts@[2 * k as int + 1]@);
        }
        let name = from_host_str_lossy(parts[2 * k].as_slice());
        let pattern = from_host_str_lossy(parts[2 * k + 1].as_slice());
        filters.add_filter(name, pattern);
        k += 1;
    }
    filters
}

} // verus!
