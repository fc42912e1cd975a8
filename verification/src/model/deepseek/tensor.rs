//! Tensors of a checkpoint and where to find them.

use safetensors::tensor::{Dtype, SafeTensorError};
use safetensors::SafeTensors;
use vstd::prelude::*;

use crate::model::deepseek::store::claims_fit;
use crate::model::deepseek::store::test_claims;
use crate::model::requests::same_text;
use crate::text::texts;

verus! {

/// Why a weight could not be loaded.
#[derive(Clone, Copy, Debug, PartialEq, Eq, Structural)]
pub enum LoadError {
    /// No shard holds the tensor.
    MissingTensor,
    /// The weight map names a shard that does not exist.
    MissingShard,
    /// The shard that the weight map names does not hold the tensor.
    UnreadableTensor,
    /// The tensor is not two-dimensional.
    NotMatrix,
    /// The tensor is not one-dimensional.
    NotVector,
    /// The element type cannot be used here.
    UnsupportedDtype,
    /// A quantized tensor's name does not end in `.weight`.
    UnnamedScale,
    /// The block scales of a quantized tensor are missing.
    MissingScale,
    /// The block scales have the wrong element type.
    ScaleDtype,
    /// The block scales are not two-dimensional.
    ScaleNotMatrix,
    /// There are no block scales.
    EmptyScale,
    /// The block scales do not fill their shape.
    ScaleLength,
    /// The row shard is that of another matrix.
    RowShardTotal,
    /// The row shard ends outside the matrix.
    RowShardRange,
    /// The column shard is that of another matrix.
    ColShardTotal,
    /// The column shard ends outside the matrix.
    ColShardRange,
    /// A row shard cuts through a scale block.
    UnalignedRows,
    /// A column shard cuts through a scale block.
    UnalignedCols,
    /// The shard holds no scale block.
    EmptyScaleShard,
    /// The data does not fill the shape.
    DataLength,
    /// A column shard of packed values cuts through a byte.
    SplitByte,
    /// An element lies outside the data.
    OutOfRange,
    /// A packed row holds more values than can be counted.
    TooWide,
    /// An expert of the rank has no names.
    MissingExpert,
}

/// Element types that the loader tells apart.
#[derive(Clone, Copy, Debug, PartialEq, Eq, Structural)]
pub enum TensorDtype {
    I8,
    F8E4M3,
    F8E8M0,
    BF16,
    F32,
    I64,
    Other,
}

/// Bytes of one element, where they are known.
pub open spec fn element_bytes(dtype: TensorDtype) -> nat {
    match dtype {
        TensorDtype::I8 => 1,
        TensorDtype::F8E4M3 => 1,
        TensorDtype::F8E8M0 => 1,
        TensorDtype::BF16 => 2,
        TensorDtype::F32 => 4,
        TensorDtype::I64 => 8,
        TensorDtype::Other => 0,
    }
}

/// Number of elements in the first `n` dimensions.
pub open spec fn leading_elements(shape: Seq<usize>, n: nat) -> nat
    decreases n,
{
    if n == 0 {
        1
    } else {
        leading_elements(shape, (n - 1) as nat) * shape[n - 1] as nat
    }
}

/// Number of elements of a tensor.
pub open spec fn element_count(shape: Seq<usize>) -> nat {
    leading_elements(shape, shape.len())
}

/// One tensor of a shard.
#[derive(Debug)]
pub struct RawTensor<'a> {
    pub dtype: TensorDtype,
    pub shape: Vec<usize>,
    pub data: &'a [u8],
}

/// What a tensor holds: element type, shape and bytes.
pub type TensorContents = (TensorDtype, Seq<usize>, Seq<u8>);

/// The data fills the shape.
pub open spec fn filled(t: TensorContents) -> bool {
    &&& element_count(t.1) <= usize::MAX
    &&& t.0 != TensorDtype::Other ==> t.2.len() == element_count(t.1) * element_bytes(t.0)
}

impl<'a> RawTensor<'a> {
    /// What the tensor holds.
    pub open spec fn contents(self) -> TensorContents {
        (self.dtype, self.shape@, self.data@)
    }
}

/// The parsed shard of a checkpoint, from the crate `safetensors`.
#[verifier::external_type_specification]
#[verifier::external_body]
pub struct ExSafeTensors<'data>(SafeTensors<'data>);

/// The error of the crate `safetensors`.
#[verifier::external_type_specification]
#[verifier::external_body]
pub struct ExSafeTensorError(SafeTensorError);

/// The tensors that a parsed shard holds, by name.
pub uninterp spec fn shard_tensors(
    shard: SafeTensors<'_>,
) -> Map<Seq<char>, (TensorDtype, Seq<usize>, Seq<u8>)>;

/// Calls `SafeTensors::tensor`, which hands out a view of the tensor of that
/// name: it succeeds exactly for the names that the shard holds, and the view
/// has the element type, shape and bytes that the shard holds under the name.
/// A shard is only ever made by parsing, which checks that no shape has more
/// elements than a `usize` counts and that each tensor's bytes fill its shape.
#[verifier::external_body]
fn shard_tensor<'a>(shard: &SafeTensors<'a>, name: &str) -> (tensor: Result<
    RawTensor<'a>,
    SafeTensorError,
>)
    ensures
        tensor is Ok <==> shard_tensors(*shard).contains_key(name@),
        tensor matches Ok(t) ==> t.contents() == shard_tensors(*shard)[name@] && filled(
            t.contents(),
        ),
{
    let view = shard.tensor(name)?;
    let dtype = match view.dtype() {
        Dtype::I8 => TensorDtype::I8,
        Dtype::F8_E4M3 => TensorDtype::F8E4M3,
        Dtype::F8_E8M0 => TensorDtype::F8E8M0,
        Dtype::BF16 => TensorDtype::BF16,
        Dtype::F32 => TensorDtype::F32,
        Dtype::I64 => TensorDtype::I64,
        _ => TensorDtype::Other,
    };
    Ok(RawTensor { dtype, shape: view.shape().to_vec(), data: view.data() })
}

/// The tensors, by name, of a file that holds a shard; none of a file that does
/// not.
pub uninterp spec fn parsed_shard(
    data: Seq<u8>,
) -> Option<Map<Seq<char>, (TensorDtype, Seq<usize>, Seq<u8>)>>;

/// Calls `SafeTensors::deserialize`, which reads the header of a file and checks
/// it against the file's length: whether it succeeds, and what the shard then
/// holds, depends on the bytes alone. It adds the last end offset of the header,
/// eight and the length of the header without a check of its own, so that the
/// call is made only where that sum is known to lie within the file.
#[verifier::external_body]
fn parse_shard<'a>(data: &'a [u8]) -> (shard: Result<SafeTensors<'a>, SafeTensorError>)
    requires
        claims_fit(data@),
    ensures
        match shard {
            Ok(s) => parsed_shard(data@) == Some(shard_tensors(s)),
            Err(_) => parsed_shard(data@) is None,
        },
{
    SafeTensors::deserialize(data)
}

/// Calls `SafeTensors::names`, which lists the names of all tensors of a shard,
/// in no particular order.
#[verifier::external_body]
fn shard_names(shard: &SafeTensors<'_>) -> (names: Vec<String>)
    ensures
        forall|name: Seq<char>|
            #[trigger] shard_tensors(*shard).contains_key(name) <==> texts(names@).contains(name),
{
    shard.names().into_iter().map(String::from).collect()
}

/// Which shard holds which tensor.
pub struct WeightMap {
    entries: Vec<(String, usize)>,
}

impl WeightMap {
    /// No tensor has two entries.
    pub closed spec fn wf(self) -> bool {
        forall|i: int, j: int|
            0 <= i < j < self.entries@.len() ==> #[trigger] self.entries@[i].0@
                != #[trigger] self.entries@[j].0@
    }

    spec fn entry_of(self, i: int, name: Seq<char>) -> bool {
        0 <= i < self.entries@.len() && self.entries@[i].0@ == name
    }

    /// The shard that holds a tensor.
    pub closed spec fn shard_of(self, name: Seq<char>) -> Option<usize> {
        if exists|i: int| self.entry_of(i, name) {
            Some(self.entries@[choose|i: int| self.entry_of(i, name)].1)
        } else {
            None
        }
    }

    proof fn lemma_entry(self, i: int)
        requires
            self.wf(),
            0 <= i < self.entries@.len(),
        ensures
            self.shard_of(self.entries@[i].0@) == Some(self.entries@[i].1),
    {
        let name = self.entries@[i].0@;
        assert(self.entry_of(i, name));
        let j = choose|j: int| self.entry_of(j, name);
        assert(self.entry_of(j, name));
        if i < j {
            assert(self.entries@[i].0@ != self.entries@[j].0@);
        } else if j < i {
            assert(self.entries@[j].0@ != self.entries@[i].0@);
        }
    }

    /// A map without entries.
    pub fn new() -> (map: WeightMap)
        ensures
            map.wf(),
            forall|name: Seq<char>| #[trigger] map.shard_of(name) is None,
    {
        let map = WeightMap { entries: Vec::new() };
        assert forall|name: Seq<char>| #[trigger] map.shard_of(name) is None by {
            assert(forall|i: int| !map.entry_of(i, name));
        }
        map
    }

    /// Records that a shard holds a tensor. A later entry for the same tensor
    /// replaces the earlier one.
    pub fn insert(&mut self, name: &str, shard: usize)
        requires
            old(self).wf(),
        ensures
            final(self).wf(),
            final(self).shard_of(name@) == Some(shard),
            forall|other: Seq<char>|
                other != name@ ==> #[trigger] final(self).shard_of(other) == old(self).shard_of(
                    other,
                ),
    {
        let ghost before = *self;
        let mut i: usize = 0;
        while i < self.entries.len()
            invariant
                i <= self.entries@.len(),
                *self == before,
                before == *old(self),
                before.wf(),
                forall|j: int| 0 <= j < i ==> before.entries@[j].0@ != name@,
            decreases self.entries@.len() - i,
        {
            if same_text(self.entries[i].0.as_str(), name) {
                self.entries.set(i, (String::from_str(name), shard));
                proof {
                    assert forall|a: int, b: int| 0 <= a < b < self.entries@.len() implies
                        #[trigger] self.entries@[a].0@ != #[trigger] self.entries@[b].0@ by {
                        assert(before.entries@[a].0@ != before.entries@[b].0@);
                    }
                    self.lemma_entry(i as int);
                    assert forall|other: Seq<char>| other != name@ implies #[trigger] self.shard_of(
                        other,
                    ) == before.shard_of(other) by {
                        lemma_same_shard(before, *self, other);
                    }
                }
                return ;
            }
            i = i + 1;
        }
        self.entries.push((String::from_str(name), shard));
        proof {
            let at = before.entries@.len() as int;
            assert forall|a: int, b: int| 0 <= a < b < self.entries@.len() implies
                #[trigger] self.entries@[a].0@ != #[trigger] self.entries@[b].0@ by {
                assert(self.entries@[a] == before.entries@[a]);
                if b < at {
                    assert(before.entries@[a].0@ != before.entries@[b].0@);
                } else {
                    assert(before.entries@[a].0@ != name@);
                }
            }
            self.lemma_entry(at);
            assert forall|other: Seq<char>| other != name@ implies #[trigger] self.shard_of(other)
                == before.shard_of(other) by {
                lemma_same_shard(before, *self, other);
            }
        }
    }

    /// The shard that holds a tensor.
    pub fn get(&self, name: &str) -> (shard: Option<usize>)
        requires
            self.wf(),
        ensures
            shard == self.shard_of(name@),
    {
        let mut i: usize = 0;
        while i < self.entries.len()
            invariant
                i <= self.entries@.len(),
                self.wf(),
                forall|j: int| 0 <= j < i ==> self.entries@[j].0@ != name@,
            decreases self.entries@.len() - i,
        {
            if same_text(self.entries[i].0.as_str(), name) {
                proof {
                    self.lemma_entry(i as int);
                }
                return Some(self.entries[i].1);
            }
            i = i + 1;
        }
        proof {
            assert forall|j: int| !self.entry_of(j, name@) by {
                if self.entry_of(j, name@) {
                    assert(self.entries@[j].0@ != name@);
                }
            }
        }
        None
    }
}

proof fn lemma_same_shard(a: WeightMap, b: WeightMap, name: Seq<char>)
    requires
        a.wf(),
        b.wf(),
        forall|i: int| 0 <= i < a.entries@.len() && a.entries@[i].0@ == name ==> i
            < b.entries@.len() && #[trigger] a.entries@[i] == b.entries@[i],
        forall|i: int| 0 <= i < b.entries@.len() && b.entries@[i].0@ == name ==> i
            < a.entries@.len() && a.entries@[i] == #[trigger] b.entries@[i],
    ensures
        a.shard_of(name) == b.shard_of(name),
{
    if exists|i: int| a.entry_of(i, name) {
        let i = choose|i: int| a.entry_of(i, name);
        assert(a.entries@[i] == b.entries@[i]);
        a.lemma_entry(i);
        b.lemma_entry(i);
    } else {
        assert forall|i: int| !b.entry_of(i, name) by {
            if b.entry_of(i, name) {
                assert(a.entries@[i] == b.entries@[i]);
                assert(a.entry_of(i, name));
            }
        }
    }
}

/// The first shard from `from` on that holds the tensor; the number of shards
/// when none does.
pub open spec fn first_holder(shards: Seq<SafeTensors<'_>>, name: Seq<char>, from: nat) -> nat
    decreases shards.len() - from,
{
    if from >= shards.len() || shard_tensors(shards[from as int]).contains_key(name) {
        from
    } else {
        first_holder(shards, name, from + 1)
    }
}

/// What a tensor of a checkpoint holds: the weight map says which shard to
/// ask; a tensor that it does not list is taken from the first shard that
/// holds it.
pub open spec fn found_tensor(
    shards: Seq<SafeTensors<'_>>,
    map: WeightMap,
    name: Seq<char>,
) -> Result<TensorContents, LoadError> {
    match map.shard_of(name) {
        Some(shard) => if shard_tensors(shards[shard as int]).contains_key(name) {
            Ok(shard_tensors(shards[shard as int])[name])
        } else {
            Err(LoadError::UnreadableTensor)
        },
        None => {
            let at = first_holder(shards, name, 0);
            if at < shards.len() {
                Ok(shard_tensors(shards[at as int])[name])
            } else {
                Err(LoadError::MissingTensor)
            }
        },
    }
}

/// What a tensor of a checkpoint holds where every tensor must be listed.
pub open spec fn listed_tensor(
    shards: Seq<SafeTensors<'_>>,
    map: WeightMap,
    name: Seq<char>,
) -> Result<TensorContents, LoadError> {
    match map.shard_of(name) {
        None => Err(LoadError::MissingTensor),
        Some(shard) => if shard >= shards.len() {
            Err(LoadError::MissingShard)
        } else if shard_tensors(shards[shard as int]).contains_key(name) {
            Ok(shard_tensors(shards[shard as int])[name])
        } else {
            Err(LoadError::UnreadableTensor)
        },
    }
}

/// A lookup returned what the checkpoint holds.
pub open spec fn is_lookup(
    r: Result<RawTensor<'_>, LoadError>,
    expected: Result<TensorContents, LoadError>,
) -> bool {
    match r {
        Ok(t) => expected == Ok::<TensorContents, LoadError>(t.contents()) && filled(t.contents()),
        Err(e) => expected == Err::<TensorContents, LoadError>(e),
    }
}

/// The shards that the map names exist.
pub open spec fn map_names_shards(map: WeightMap, shards: Seq<SafeTensors<'_>>) -> bool {
    forall|name: Seq<char>| #[trigger]
        map.shard_of(name) matches Some(shard) ==> shard < shards.len()
}

/// The last of the first `n` shards that holds the tensor.
pub open spec fn last_holder(shards: Seq<SafeTensors<'_>>, name: Seq<char>, n: nat) -> Option<usize>
    decreases n,
{
    if n == 0 {
        None
    } else if shard_tensors(shards[n - 1]).contains_key(name) {
        Some((n - 1) as usize)
    } else {
        last_holder(shards, name, (n - 1) as nat)
    }
}

/// A file holds a shard: its header claims no more than the file holds, and the
/// file can be parsed.
pub open spec fn is_readable(file: Seq<u8>) -> bool {
    claims_fit(file) && parsed_shard(file) is Some
}

/// The first file from `from` on that holds no shard; the number of files when
/// all hold one.
pub open spec fn first_unreadable(files: Seq<&[u8]>, from: nat) -> nat
    decreases files.len() - from,
{
    if from >= files.len() || !is_readable(files[from as int]@) {
        from
    } else {
        first_unreadable(files, from + 1)
    }
}

/// The shards are those of the files, and the map sends each tensor to the last
/// shard that holds it.
pub open spec fn are_opened(
    shards: Seq<SafeTensors<'_>>,
    map: WeightMap,
    files: Seq<&[u8]>,
) -> bool {
    &&& shards.len() == files.len()
    &&& forall|i: int|
        0 <= i < files.len() ==> parsed_shard(files[i]@) == Some(
            shard_tensors(#[trigger] shards[i]),
        )
    &&& map.wf()
    &&& forall|name: Seq<char>| #[trigger]
        map.shard_of(name) == last_holder(shards, name, shards.len())
}

proof fn lemma_last_holder(a: Seq<SafeTensors<'_>>, b: Seq<SafeTensors<'_>>, name: Seq<char>, n: nat)
    requires
        n <= a.len(),
        n <= b.len(),
        forall|i: int| 0 <= i < n ==> a[i] == b[i],
    ensures
        last_holder(a, name, n) == last_holder(b, name, n),
        last_holder(a, name, n) matches Some(shard) ==> shard < n,
    decreases n,
{
    if n > 0 {
        lemma_last_holder(a, b, name, (n - 1) as nat);
    }
}

/// Every shard that the map of opened shards names exists and holds the tensor,
/// and every tensor of a shard is listed.
pub proof fn law_opened_maps_name_holders(
    shards: Seq<SafeTensors<'_>>,
    map: WeightMap,
    files: Seq<&[u8]>,
)
    requires
        are_opened(shards, map, files),
        shards.len() <= usize::MAX,
    ensures
        map_names_shards(map, shards),
        forall|name: Seq<char>| #[trigger]
            map.shard_of(name) matches Some(shard) ==> shard_tensors(
                shards[shard as int],
            ).contains_key(name),
        forall|name: Seq<char>, i: int|
            0 <= i < shards.len() && #[trigger] shard_tensors(shards[i]).contains_key(name)
                ==> map.shard_of(name) is Some,
{
    assert forall|name: Seq<char>| #[trigger] map.shard_of(name) is Some implies map.shard_of(
        name,
    )->Some_0 < shards.len() && shard_tensors(
        shards[map.shard_of(name)->Some_0 as int],
    ).contains_key(name) by {
        lemma_holder(shards, name, shards.len());
    }
    assert forall|name: Seq<char>, i: int|
        0 <= i < shards.len() && #[trigger] shard_tensors(shards[i]).contains_key(
            name,
        ) implies map.shard_of(name) is Some by {
        lemma_holder(shards, name, shards.len());
    }
}

proof fn lemma_holder(shards: Seq<SafeTensors<'_>>, name: Seq<char>, n: nat)
    requires
        n <= shards.len() <= usize::MAX,
    ensures
        last_holder(shards, name, n) matches Some(shard) ==> shard < n && shard_tensors(
            shards[shard as int],
        ).contains_key(name),
        forall|i: int|
            0 <= i < n && #[trigger] shard_tensors(shards[i]).contains_key(name) ==> last_holder(
                shards,
                name,
                n,
            ) is Some,
    decreases n,
{
    if n > 0 {
        lemma_holder(shards, name, (n - 1) as nat);
    }
}

fn list_names(map: &mut WeightMap, shard: &SafeTensors<'_>, at: usize)
    requires
        old(map).wf(),
    ensures
        final(map).wf(),
        forall|name: Seq<char>| #[trigger]
            final(map).shard_of(name) == if shard_tensors(*shard).contains_key(name) {
                Some(at)
            } else {
                old(map).shard_of(name)
            },
{
    let names = shard_names(shard);
    let mut i: usize = 0;
    while i < names.len()
        invariant
            i <= names@.len(),
            map.wf(),
            forall|name: Seq<char>| #[trigger]
                map.shard_of(name) == if texts(names@).take(i as int).contains(name) {
                    Some(at)
                } else {
                    old(map).shard_of(name)
                },
        decreases names@.len() - i,
    {
        map.insert(names[i].as_str(), at);
        proof {
            let all = texts(names@);
            assert(all.take(i + 1) =~= all.take(i as int).push(names@[i as int]@));
            assert forall|name: Seq<char>| all.take(i + 1).contains(name) <==> all.take(
                i as int,
            ).contains(name) || name == names@[i as int]@ by {
                lemma_push_holds(all.take(i as int), names@[i as int]@, name);
            }
        }
        i = i + 1;
    }
    proof {
        assert(texts(names@).take(i as int) =~= texts(names@));
    }
}

proof fn lemma_push_holds(list: Seq<Seq<char>>, last: Seq<char>, name: Seq<char>)
    ensures
        list.push(last).contains(name) <==> list.contains(name) || name == last,
{
    let longer = list.push(last);
    if list.contains(name) {
        let i = choose|i: int| 0 <= i < list.len() && list[i] == name;
        assert(longer[i] == name);
    }
    assert(longer[list.len() as int] == last);
    if longer.contains(name) {
        let i = choose|i: int| 0 <= i < longer.len() && longer[i] == name;
        if i < list.len() {
            assert(list[i] == name);
        }
    }
}

/// A file that holds no shard.
#[derive(Clone, Copy, Debug, PartialEq, Eq, Structural)]
pub struct UnreadableShard {
    /// Its place among the files.
    pub file: usize,
}

/// Opens the shards of a checkpoint and lists which of them holds which tensor.
pub fn open_shards<'a>(files: &Vec<&'a [u8]>) -> (r: Result<
    (Vec<SafeTensors<'a>>, WeightMap),
    UnreadableShard,
>)
    ensures
        match r {
            Ok((shards, map)) => {
                &&& first_unreadable(files@, 0) == files@.len()
                &&& are_opened(shards@, map, files@)
            },
            Err(e) => e.file == first_unreadable(files@, 0) && e.file < files@.len(),
        },
{
    let mut shards: Vec<SafeTensors<'a>> = Vec::new();
    let mut map = WeightMap::new();
    let mut i: usize = 0;
    while i < files.len()
        invariant
            i <= files@.len(),
            shards@.len() == i,
            first_unreadable(files@, 0) == first_unreadable(files@, i as nat),
            forall|j: int|
                0 <= j < i ==> parsed_shard(files@[j]@) == Some(
                    shard_tensors(#[trigger] shards@[j]),
                ),
            map.wf(),
            forall|name: Seq<char>| #[trigger]
                map.shard_of(name) == last_holder(shards@, name, i as nat),
        decreases files@.len() - i,
    {
        if !test_claims(files[i]) {
            return Err(UnreadableShard { file: i });
        }
        let shard = match parse_shard(files[i]) {
            Ok(shard) => shard,
            Err(_) => {
                return Err(UnreadableShard { file: i });
            },
        };
        let ghost before = shards@;
        list_names(&mut map, &shard, i);
        shards.push(shard);
        proof {
            assert forall|name: Seq<char>| #[trigger] map.shard_of(name) == last_holder(
                shards@,
                name,
                (i + 1) as nat,
            ) by {
                lemma_last_holder(before, shards@, name, i as nat);
            }
        }
        i = i + 1;
    }
    Ok((shards, map))
}

/// Finds a tensor by the weight map, or else in the first shard that holds it.
pub fn find_tensor<'a>(
    shards: &[SafeTensors<'a>],
    weight_map: &WeightMap,
    name: &str,
) -> (r: Result<RawTensor<'a>, LoadError>)
    requires
        weight_map.wf(),
        map_names_shards(*weight_map, shards@),
    ensures
        is_lookup(r, found_tensor(shards@, *weight_map, name@)),
{
    if let Some(shard) = weight_map.get(name) {
        return match shard_tensor(&shards[shard], name) {
            Ok(tensor) => Ok(tensor),
            Err(_) => Err(LoadError::UnreadableTensor),
        };
    }
    let mut i: usize = 0;
    while i < shards.len()
        invariant
            i <= shards@.len(),
            weight_map.shard_of(name@) is None,
            first_holder(shards@, name@, 0) == first_holder(shards@, name@, i as nat),
        decreases shards@.len() - i,
    {
        if let Ok(tensor) = shard_tensor(&shards[i], name) {
            return Ok(tensor);
        }
        i = i + 1;
    }
    Err(LoadError::MissingTensor)
}

/// Finds a tensor that the weight map must list.
pub fn deepseek_find_tensor<'a>(
    shards: &[SafeTensors<'a>],
    weight_map: &WeightMap,
    name: &str,
) -> (r: Result<RawTensor<'a>, LoadError>)
    requires
        weight_map.wf(),
    ensures
        is_lookup(r, listed_tensor(shards@, *weight_map, name@)),
{
    match weight_map.get(name) {
        None => Err(LoadError::MissingTensor),
        Some(shard) => {
            if shard >= shards.len() {
                return Err(LoadError::MissingShard);
            }
            match shard_tensor(&shards[shard], name) {
                Ok(tensor) => Ok(tensor),
                Err(_) => Err(LoadError::UnreadableTensor),
            }
        },
    }
}

/// A tensor that must be listed is found exactly where the map names a shard that
/// is there and holds it; what is found is what that shard holds under the name.
pub proof fn law_listed_tensors_come_from_their_shard(
    shards: Seq<SafeTensors<'_>>,
    map: WeightMap,
    name: Seq<char>,
)
    ensures
        listed_tensor(shards, map, name) is Ok <==> (map.shard_of(name) matches Some(shard)
            && shard < shards.len() && shard_tensors(shards[shard as int]).contains_key(name)),
        listed_tensor(shards, map, name) matches Ok(t) ==> shard_tensors(
            shards[map.shard_of(name)->Some_0 as int],
        )[name] == t,
        listed_tensor(shards, map, name) == Err::<TensorContents, LoadError>(
            LoadError::MissingTensor,
        ) <==> map.shard_of(name) is None,
        listed_tensor(shards, map, name) == Err::<TensorContents, LoadError>(
            LoadError::MissingShard,
        ) <==> (map.shard_of(name) matches Some(shard) && shard >= shards.len()),
{
}

/// A lookup gives the bytes, the type and the shape that the checkpoint holds, and
/// succeeds exactly where the checkpoint holds the tensor.
pub proof fn law_lookups_give_what_is_held(
    r: Result<RawTensor<'_>, LoadError>,
    expected: Result<TensorContents, LoadError>,
)
    requires
        is_lookup(r, expected),
    ensures
        r is Ok <==> expected is Ok,
        r matches Ok(t) ==> t.contents() == expected->Ok_0,
        r matches Err(e) ==> e == expected->Err_0,
{
}

} // verus!
