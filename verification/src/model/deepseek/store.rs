//! Tensors of a checkpoint, by name, over the bytes of its shards.

use vstd::prelude::*;
use vstd::slice::slice_subrange;

use crate::model::deepseek::json::{find_member, read_numbers, read_parts, read_string};
use crate::model::deepseek::json::{json_numbers, json_shape, json_string, member, member_texts};
use crate::model::deepseek::json::{JsonMember, JsonParts, JsonShape};
use crate::model::deepseek::load::read_signed;
use crate::model::deepseek::load::signed_value;
use crate::model::deepseek::quant::scalar_value;
use crate::model::deepseek::quant::{little_endian, scalar};
use crate::model::deepseek::tensor::element_count;
use crate::model::deepseek::tensor::leading_elements;
use crate::model::deepseek::tensor::TensorDtype;
use crate::model::requests::same_text;
use crate::text::sorted_set;
use crate::text::{is_sorted_set, texts};

verus! {

/// Why a checkpoint or a tensor of it cannot be read.
#[derive(Clone, Copy, Debug, PartialEq, Eq, Structural)]
pub enum StoreError {
    /// There is no shard.
    NoShards,
    /// A shard is too short for the length of its header.
    TooSmall,
    /// A header ends outside its shard.
    HeaderLength,
    /// A header is no JSON object.
    HeaderJson,
    /// A header's entry does not describe a tensor.
    Entry,
    /// A tensor's data lies outside its shard.
    Offsets,
    /// Two tensors have one name.
    Duplicate,
    /// There is no tensor of that name.
    Missing,
    /// The tensor is not two-dimensional.
    NotMatrix,
    /// The row lies outside the tensor.
    Row,
    /// The input is not as long as a row.
    InputLength,
    /// The element type cannot be used here.
    Dtype,
    /// An element lies outside the tensor's data.
    OutOfRange,
    /// An expert id is negative.
    NegativeId,
    /// The index is not JSON.
    IndexJson,
    /// The index has no weight map.
    WeightMap,
    /// The index names a shard by something else than a string.
    ShardName,
    /// The index names no shard.
    EmptyIndex,
}

/// Where a tensor lies.
pub struct TensorMeta {
    pub name: String,
    /// Index of the shard.
    pub shard: usize,
    pub dtype: TensorDtype,
    pub shape: Vec<usize>,
    /// The tensor's data are the bytes of the shard from `start` to `end`.
    pub start: usize,
    pub end: usize,
}

/// Where a tensor lies, for reasoning.
pub struct Located {
    pub name: Seq<char>,
    pub shard: int,
    pub dtype: TensorDtype,
    pub shape: Seq<usize>,
    pub start: int,
    pub end: int,
}

impl View for TensorMeta {
    type V = Located;

    open spec fn view(&self) -> Located {
        Located {
            name: self.name@,
            shard: self.shard as int,
            dtype: self.dtype,
            shape: self.shape@,
            start: self.start as int,
            end: self.end as int,
        }
    }
}

/// The element type of that name.
pub open spec fn named_dtype(name: Seq<char>) -> TensorDtype {
    if name == "BF16"@ {
        TensorDtype::BF16
    } else if name == "F32"@ {
        TensorDtype::F32
    } else if name == "I64"@ {
        TensorDtype::I64
    } else {
        TensorDtype::Other
    }
}

/// What an entry of a header says of a tensor.
pub struct HeaderTensor {
    pub dtype: String,
    pub shape: Vec<usize>,
    /// Where the data begins and ends, from the end of the header on.
    pub data_offsets: [usize; 2],
}

/// The tensor that an entry locates in a shard of `file_len` bytes, whose
/// header ends at `header_end`.
pub open spec fn located(
    shard: int,
    file_len: int,
    header_end: int,
    name: Seq<char>,
    dtype: Seq<char>,
    shape: Seq<usize>,
    begin: int,
    finish: int,
) -> Result<Located, StoreError> {
    if begin <= finish && header_end + finish <= file_len {
        Ok(
            Located {
                name,
                shard,
                dtype: named_dtype(dtype),
                shape,
                start: header_end + begin,
                end: header_end + finish,
            },
        )
    } else {
        Err(StoreError::Offsets)
    }
}

/// Some tensor has that name.
pub open spec fn is_named(tensors: Seq<Located>, name: Seq<char>) -> bool {
    exists|i: int| 0 <= i < tensors.len() && (#[trigger] tensors[i]).name == name
}

/// The tensors of a list, for reasoning.
pub open spec fn places(tensors: Seq<TensorMeta>) -> Seq<Located> {
    Seq::new(tensors.len(), |i: int| tensors[i]@)
}

/// One more tensor, unless its name is taken.
pub open spec fn with_tensor(tensors: Seq<Located>, t: Result<Located, StoreError>) -> Result<
    Seq<Located>,
    StoreError,
> {
    match t {
        Err(e) => Err(e),
        Ok(t) => if is_named(tensors, t.name) {
            Err(StoreError::Duplicate)
        } else {
            Ok(tensors.push(t))
        },
    }
}

/// The parts of an entry that describe a tensor: its element type, its shape
/// and its offsets.
pub open spec fn entry_parts(text: Seq<u8>) -> Option<(Seq<u8>, Seq<u8>, Seq<u8>)> {
    match json_shape(text) {
        JsonShape::Object(members) => match (
            member(members, "dtype"@),
            member(members, "shape"@),
            member(members, "data_offsets"@),
        ) {
            (Some(dtype), Some(shape), Some(offsets)) => Some((dtype, shape, offsets)),
            _ => None,
        },
        JsonShape::List(items) => if items.len() == 3 {
            Some((items[0], items[1], items[2]))
        } else {
            None
        },
        _ => None,
    }
}

/// Unsigned numbers that are all sizes on this machine.
pub open spec fn sizes(numbers: Seq<u64>) -> Option<Seq<usize>> {
    if forall|i: int| 0 <= i < numbers.len() ==> (#[trigger] numbers[i]) <= usize::MAX {
        Some(Seq::new(numbers.len(), |i: int| numbers[i] as usize))
    } else {
        None
    }
}

/// The sizes that a JSON text lists.
pub open spec fn listed_sizes(text: Seq<u8>) -> Option<Seq<usize>> {
    match json_numbers(text) {
        Some(numbers) => sizes(numbers),
        None => None,
    }
}

/// What an entry says of a tensor: the name of its element type, its shape and
/// its two offsets.
pub open spec fn entry_tensor(text: Seq<u8>) -> Option<(Seq<char>, Seq<usize>, Seq<usize>)> {
    match entry_parts(text) {
        None => None,
        Some((dtype, shape, offsets)) => match (
            json_string(dtype),
            listed_sizes(shape),
            listed_sizes(offsets),
        ) {
            (Some(dtype), Some(shape), Some(offsets)) => if offsets.len() == 2 {
                Some((dtype, shape, offsets))
            } else {
                None
            },
            _ => None,
        },
    }
}

/// The tensor that an entry describes and locates.
pub open spec fn entry_located(
    shard: int,
    file_len: int,
    header_end: int,
    name: Seq<char>,
    text: Seq<u8>,
) -> Result<Located, StoreError> {
    match entry_tensor(text) {
        None => Err(StoreError::Entry),
        Some((dtype, shape, offsets)) => located(
            shard,
            file_len,
            header_end,
            name,
            dtype,
            shape,
            offsets[0] as int,
            offsets[1] as int,
        ),
    }
}

/// The tensors that the first `n` entries of a header add to a list. An entry
/// of the name `__metadata__` adds none.
pub open spec fn with_entries(
    tensors: Seq<Located>,
    shard: int,
    file_len: int,
    header_end: int,
    entries: Seq<(Seq<char>, Seq<u8>)>,
    n: int,
) -> Result<Seq<Located>, StoreError>
    decreases n,
{
    if n <= 0 {
        Ok(tensors)
    } else {
        match with_entries(tensors, shard, file_len, header_end, entries, n - 1) {
            Err(e) => Err(e),
            Ok(list) => if entries[n - 1].0 == "__metadata__"@ {
                Ok(list)
            } else {
                with_tensor(
                    list,
                    entry_located(
                        shard,
                        file_len,
                        header_end,
                        entries[n - 1].0,
                        entries[n - 1].1,
                    ),
                )
            },
        }
    }
}

/// Where the header of a shard ends: it follows its own length in eight bytes.
pub open spec fn header_end(file: Seq<u8>) -> Result<int, StoreError> {
    if file.len() < 8 {
        Err(StoreError::TooSmall)
    } else if 8 + little_endian(file, 0, 8) > file.len() {
        Err(StoreError::HeaderLength)
    } else {
        Ok((8 + little_endian(file, 0, 8)) as int)
    }
}

/// Where the data of a tensor ends, as its entry says.
pub open spec fn entry_end(text: Seq<u8>) -> Option<usize> {
    match entry_parts(text) {
        None => None,
        Some((_, _, offsets)) => match listed_sizes(offsets) {
            Some(offsets) => if offsets.len() == 2 {
                Some(offsets[1])
            } else {
                None
            },
            None => None,
        },
    }
}

/// What the first `n` entries of a header claim fits behind it: each says where
/// its data ends, and none ends more than `room` bytes from the end of the header.
/// An entry of the name `__metadata__` claims nothing.
pub open spec fn entries_fit(entries: Seq<(Seq<char>, Seq<u8>)>, room: int, n: int) -> bool {
    forall|i: int|
        0 <= i < n && (#[trigger] entries[i]).0 != "__metadata__"@ ==> {
            &&& entry_end(entries[i].1) matches Some(end)
            &&& end <= room
        }
}

/// A file begins with a header, and the file holds all the data that the header
/// claims: every end offset that it lists, together with the eight bytes of the
/// header's length and the header itself, lies within the file.
pub open spec fn claims_fit(file: Seq<u8>) -> bool {
    match header_end(file) {
        Err(_) => false,
        Ok(end) => match json_shape(file.subrange(8, end)) {
            JsonShape::Object(entries) => entries_fit(
                entries,
                file.len() - end,
                entries.len() as int,
            ),
            _ => false,
        },
    }
}

/// The tensors that a shard adds to a list.
pub open spec fn with_shard(tensors: Seq<Located>, shard: int, file: Seq<u8>) -> Result<
    Seq<Located>,
    StoreError,
> {
    match header_end(file) {
        Err(e) => Err(e),
        Ok(end) => match json_shape(file.subrange(8, end)) {
            JsonShape::Object(entries) => with_entries(
                tensors,
                shard,
                file.len() as int,
                end,
                entries,
                entries.len() as int,
            ),
            _ => Err(StoreError::HeaderJson),
        },
    }
}

/// The tensors of the first `n` shards.
pub open spec fn with_shards(files: Seq<Seq<u8>>, n: int) -> Result<Seq<Located>, StoreError>
    decreases n,
{
    if n <= 0 {
        Ok(Seq::empty())
    } else {
        match with_shards(files, n - 1) {
            Err(e) => Err(e),
            Ok(list) => with_shard(list, n - 1, files[n - 1]),
        }
    }
}

/// The tensors of a checkpoint.
pub open spec fn opened(files: Seq<Seq<u8>>) -> Result<Seq<Located>, StoreError> {
    if files.len() == 0 {
        Err(StoreError::NoShards)
    } else {
        with_shards(files, files.len() as int)
    }
}

/// The bytes of shards.
pub open spec fn shard_bytes(shards: Seq<&[u8]>) -> Seq<Seq<u8>> {
    Seq::new(shards.len(), |i: int| shards[i]@)
}

proof fn lemma_entries_failure_stays(
    tensors: Seq<Located>,
    shard: int,
    file_len: int,
    end: int,
    entries: Seq<(Seq<char>, Seq<u8>)>,
    m: int,
    n: int,
)
    requires
        m <= n,
        with_entries(tensors, shard, file_len, end, entries, m) is Err,
    ensures
        with_entries(tensors, shard, file_len, end, entries, n) == with_entries(
            tensors,
            shard,
            file_len,
            end,
            entries,
            m,
        ),
    decreases n - m,
{
    if m < n {
        lemma_entries_failure_stays(tensors, shard, file_len, end, entries, m, n - 1);
    }
}

proof fn lemma_shards_failure_stays(files: Seq<Seq<u8>>, m: int, n: int)
    requires
        m <= n,
        with_shards(files, m) is Err,
    ensures
        with_shards(files, n) == with_shards(files, m),
    decreases n - m,
{
    if m < n {
        lemma_shards_failure_stays(files, m, n - 1);
    }
}

/// Element types that the reader tells apart.
fn dtype_named(name: &str) -> (dtype: TensorDtype)
    ensures
        dtype == named_dtype(name@),
{
    if same_text(name, "BF16") {
        TensorDtype::BF16
    } else if same_text(name, "F32") {
        TensorDtype::F32
    } else if same_text(name, "I64") {
        TensorDtype::I64
    } else {
        TensorDtype::Other
    }
}

/// Locates the tensor that an entry describes.
pub fn locate_tensor(
    shard: usize,
    file_len: usize,
    header_end: usize,
    name: String,
    tensor: HeaderTensor,
) -> (r: Result<TensorMeta, StoreError>)
    ensures
        match located(
            shard as int,
            file_len as int,
            header_end as int,
            name@,
            tensor.dtype@,
            tensor.shape@,
            tensor.data_offsets@[0] as int,
            tensor.data_offsets@[1] as int,
        ) {
            Ok(t) => r matches Ok(meta) && meta@ == t,
            Err(e) => r == Err::<TensorMeta, StoreError>(e),
        },
{
    let begin: usize = tensor.data_offsets[0];
    let finish: usize = tensor.data_offsets[1];
    if begin > finish || header_end > file_len || finish > file_len - header_end {
        return Err(StoreError::Offsets);
    }
    let dtype = dtype_named(tensor.dtype.as_str());
    Ok(
        TensorMeta {
            name,
            shard,
            dtype,
            shape: tensor.shape,
            start: header_end + begin,
            end: header_end + finish,
        },
    )
}

/// Index of the tensor of that name.
fn position(tensors: &Vec<TensorMeta>, name: &str) -> (at: Option<usize>)
    ensures
        match at {
            Some(i) => {
                &&& i < tensors@.len()
                &&& tensors@[i as int].name@ == name@
                &&& forall|j: int| 0 <= j < i ==> (#[trigger] tensors@[j]).name@ != name@
            },
            None => forall|j: int|
                0 <= j < tensors@.len() ==> (#[trigger] tensors@[j]).name@ != name@,
        },
{
    let mut i: usize = 0;
    while i < tensors.len()
        invariant
            i <= tensors@.len(),
            forall|j: int| 0 <= j < i ==> (#[trigger] tensors@[j]).name@ != name@,
        decreases tensors@.len() - i,
    {
        if same_text(tensors[i].name.as_str(), name) {
            return Some(i);
        }
        i = i + 1;
    }
    None
}

/// Adds a tensor to a list, unless its name is taken.
pub fn add_tensor(tensors: &mut Vec<TensorMeta>, tensor: TensorMeta) -> (r: Result<(), StoreError>)
    ensures
        match with_tensor(places(old(tensors)@), Ok(tensor@)) {
            Ok(list) => r is Ok && places(final(tensors)@) == list,
            Err(e) => r == Err::<(), StoreError>(e) && final(tensors)@ == old(tensors)@,
        },
{
    match position(tensors, tensor.name.as_str()) {
        Some(i) => {
            proof {
                assert(places(tensors@)[i as int].name == tensor@.name);
            }
            Err(StoreError::Duplicate)
        },
        None => {
            proof {
                assert forall|i: int| 0 <= i < places(tensors@).len() implies (
                #[trigger] places(tensors@)[i]).name != tensor@.name by {
                    assert(tensors@[i].name@ != tensor.name@);
                }
            }
            let ghost kept = tensors@;
            tensors.push(tensor);
            proof {
                assert(places(tensors@) =~= places(kept).push(tensor@));
            }
            Ok(())
        },
    }
}

fn read_sizes(text: &[u8]) -> (r: Option<Vec<usize>>)
    ensures
        match listed_sizes(text@) {
            Some(list) => r matches Some(v) && v@ == list,
            None => r is None,
        },
{
    match read_numbers(text) {
        None => None,
        Some(numbers) => {
            let mut out: Vec<usize> = Vec::new();
            let mut i: usize = 0;
            while i < numbers.len()
                invariant
                    i <= numbers@.len(),
                    out@.len() == i,
                    forall|j: int|
                        0 <= j < i ==> (#[trigger] numbers@[j]) <= usize::MAX && out@[j]
                            == numbers@[j],
                    json_numbers(text@) == Some(numbers@),
                decreases numbers@.len() - i,
            {
                if numbers[i] > usize::MAX as u64 {
                    proof {
                        assert(numbers@[i as int] > usize::MAX);
                    }
                    return None;
                }
                out.push(numbers[i] as usize);
                i = i + 1;
            }
            proof {
                assert(out@ =~= Seq::new(numbers@.len(), |i: int| numbers@[i] as usize));
            }
            Some(out)
        },
    }
}

fn assemble_entry(dtype: &[u8], shape: &[u8], offsets: &[u8]) -> (r: Option<HeaderTensor>)
    ensures
        match (json_string(dtype@), listed_sizes(shape@), listed_sizes(offsets@)) {
            (Some(d), Some(s), Some(o)) => if o.len() == 2 {
                r matches Some(t) && t.dtype@ == d && t.shape@ == s && t.data_offsets@ == o
            } else {
                r is None
            },
            _ => r is None,
        },
{
    match (read_string(dtype), read_sizes(shape), read_sizes(offsets)) {
        (Some(d), Some(s), Some(o)) => {
            if o.len() != 2 {
                return None;
            }
            let data_offsets: [usize; 2] = [o[0], o[1]];
            proof {
                assert(data_offsets@ =~= o@);
            }
            Some(HeaderTensor { dtype: d, shape: s, data_offsets })
        },
        _ => None,
    }
}

/// Reads what an entry says of a tensor.
pub fn read_entry(text: &[u8]) -> (r: Option<HeaderTensor>)
    ensures
        match entry_tensor(text@) {
            Some((dtype, shape, offsets)) => r matches Some(t) && t.dtype@ == dtype && t.shape@
                == shape && t.data_offsets@ == offsets,
            None => r is None,
        },
{
    match read_parts(text) {
        JsonParts::Object(members) => {
            proof {
                assert(json_shape(text@) == JsonShape::Object(member_texts(members@)));
            }
            match (
                find_member(&members, "dtype"),
                find_member(&members, "shape"),
                find_member(&members, "data_offsets"),
            ) {
                (Some(dtype), Some(shape), Some(offsets)) => assemble_entry(
                    dtype.as_slice(),
                    shape.as_slice(),
                    offsets.as_slice(),
                ),
                _ => None,
            }
        },
        JsonParts::List(items) => {
            if items.len() != 3 {
                return None;
            }
            assemble_entry(items[0].as_slice(), items[1].as_slice(), items[2].as_slice())
        },
        _ => None,
    }
}

fn add_entries(
    tensors: &mut Vec<TensorMeta>,
    shard: usize,
    file_len: usize,
    header_end: usize,
    entries: Vec<JsonMember>,
) -> (r: Result<(), StoreError>)
    ensures
        match with_entries(
            places(old(tensors)@),
            shard as int,
            file_len as int,
            header_end as int,
            member_texts(entries@),
            entries@.len() as int,
        ) {
            Ok(list) => r is Ok && places(final(tensors)@) == list,
            Err(e) => r == Err::<(), StoreError>(e),
        },
{
    let ghost start = places(tensors@);
    let ghost texts = member_texts(entries@);
    let mut i: usize = 0;
    while i < entries.len()
        invariant
            i <= entries@.len(),
            texts == member_texts(entries@),
            start == places(old(tensors)@),
            with_entries(
                start,
                shard as int,
                file_len as int,
                header_end as int,
                texts,
                i as int,
            ) == Ok::<Seq<Located>, StoreError>(places(tensors@)),
        decreases entries@.len() - i,
    {
        proof {
            assert(texts[i as int] == (
                entries@[i as int].name@,
                entries@[i as int].value@,
            ));
        }
        if !same_text(entries[i].name.as_str(), "__metadata__") {
            let failure: Option<StoreError> = match read_entry(entries[i].value.as_slice()) {
                None => Some(StoreError::Entry),
                Some(tensor) => {
                    let name = String::from_str(entries[i].name.as_str());
                    match locate_tensor(shard, file_len, header_end, name, tensor) {
                        Err(e) => Some(e),
                        Ok(meta) => match add_tensor(tensors, meta) {
                            Err(e) => Some(e),
                            Ok(()) => None,
                        },
                    }
                },
            };
            if let Some(e) = failure {
                proof {
                    lemma_entries_failure_stays(
                        start,
                        shard as int,
                        file_len as int,
                        header_end as int,
                        texts,
                        i + 1,
                        entries@.len() as int,
                    );
                }
                return Err(e);
            }
        }
        i = i + 1;
    }
    Ok(())
}

/// Finds where the header of a shard ends.
pub fn find_header_end(file: &[u8]) -> (r: Result<usize, StoreError>)
    ensures
        match header_end(file@) {
            Ok(end) => r matches Ok(n) && n == end,
            Err(e) => r == Err::<usize, StoreError>(e),
        },
{
    let total: usize = file.len();
    if total < 8 {
        return Err(StoreError::TooSmall);
    }
    proof {
        reveal_with_fuel(little_endian, 9);
    }
    let low: u64 = file[0] as u64 + 256 * (file[1] as u64 + 256 * (file[2] as u64 + 256 * (
    file[3] as u64)));
    let high: u64 = file[4] as u64 + 256 * (file[5] as u64 + 256 * (file[6] as u64 + 256 * (
    file[7] as u64)));
    let len: u64 = low + 0x1_0000_0000 * high;
    if len > (total - 8) as u64 {
        return Err(StoreError::HeaderLength);
    }
    Ok(8 + len as usize)
}

fn read_end(offsets: &[u8]) -> (r: Option<usize>)
    ensures
        r == (match listed_sizes(offsets@) {
            Some(list) => if list.len() == 2 {
                Some(list[1])
            } else {
                None
            },
            None => None,
        }),
{
    match read_sizes(offsets) {
        Some(list) => {
            if list.len() == 2 {
                Some(list[1])
            } else {
                None
            }
        },
        None => None,
    }
}

/// Reads where the data of a tensor ends.
pub fn read_entry_end(text: &[u8]) -> (r: Option<usize>)
    ensures
        r == entry_end(text@),
{
    match read_parts(text) {
        JsonParts::Object(members) => {
            proof {
                assert(json_shape(text@) == JsonShape::Object(member_texts(members@)));
            }
            match (
                find_member(&members, "dtype"),
                find_member(&members, "shape"),
                find_member(&members, "data_offsets"),
            ) {
                (Some(_), Some(_), Some(offsets)) => read_end(offsets.as_slice()),
                _ => None,
            }
        },
        JsonParts::List(items) => {
            if items.len() != 3 {
                return None;
            }
            read_end(items[2].as_slice())
        },
        _ => None,
    }
}

fn test_entries(entries: &Vec<JsonMember>, room: usize) -> (fit: bool)
    ensures
        fit == entries_fit(member_texts(entries@), room as int, entries@.len() as int),
{
    let ghost texts = member_texts(entries@);
    let mut i: usize = 0;
    while i < entries.len()
        invariant
            i <= entries@.len(),
            texts == member_texts(entries@),
            entries_fit(texts, room as int, i as int),
        decreases entries@.len() - i,
    {
        proof {
            assert(texts[i as int] == (entries@[i as int].name@, entries@[i as int].value@));
        }
        if !same_text(entries[i].name.as_str(), "__metadata__") {
            let fits: bool = match read_entry_end(entries[i].value.as_slice()) {
                Some(end) => end <= room,
                None => false,
            };
            if !fits {
                return false;
            }
        }
        i = i + 1;
    }
    true
}

/// Tests whether a file begins with a header and holds all the data that the
/// header claims.
pub fn test_claims(file: &[u8]) -> (fit: bool)
    ensures
        fit == claims_fit(file@),
{
    let end: usize = match find_header_end(file) {
        Ok(end) => end,
        Err(_) => {
            return false;
        },
    };
    let header = slice_subrange(file, 8, end);
    match read_parts(header) {
        JsonParts::Object(entries) => {
            proof {
                assert(json_shape(header@) == JsonShape::Object(member_texts(entries@)));
            }
            test_entries(&entries, file.len() - end)
        },
        _ => false,
    }
}

/// Adds the tensors that the header of a shard describes.
pub fn parse_header(tensors: &mut Vec<TensorMeta>, shard: usize, file: &[u8]) -> (r: Result<
    (),
    StoreError,
>)
    ensures
        match with_shard(places(old(tensors)@), shard as int, file@) {
            Ok(list) => r is Ok && places(final(tensors)@) == list,
            Err(e) => r == Err::<(), StoreError>(e),
        },
{
    let end: usize = match find_header_end(file) {
        Ok(end) => end,
        Err(e) => {
            return Err(e);
        },
    };
    let header = slice_subrange(file, 8, end);
    match read_parts(header) {
        JsonParts::Object(entries) => {
            proof {
                assert(json_shape(header@) == JsonShape::Object(member_texts(entries@)));
            }
            add_entries(tensors, shard, file.len(), end, entries)
        },
        _ => Err(StoreError::HeaderJson),
    }
}

/// The tensors of a checkpoint over the bytes of its shards.
pub struct SafeTensorStore<'a> {
    pub shards: Vec<&'a [u8]>,
    pub tensors: Vec<TensorMeta>,
}

/// The first tensor of that name, from index `i` on.
pub open spec fn tensor_from(tensors: Seq<Located>, name: Seq<char>, i: int) -> Option<Located>
    decreases tensors.len() - i,
{
    if i < 0 || i >= tensors.len() {
        None
    } else if tensors[i].name == name {
        Some(tensors[i])
    } else {
        tensor_from(tensors, name, i + 1)
    }
}

/// A tensor lies inside its shard.
pub open spec fn is_inside(t: Located, files: Seq<Seq<u8>>) -> bool {
    0 <= t.shard < files.len() && 0 <= t.start <= t.end <= files[t.shard].len()
}

/// No two tensors have one name.
pub open spec fn distinct(tensors: Seq<Located>) -> bool {
    forall|i: int, j: int|
        0 <= i < j < tensors.len() ==> (#[trigger] tensors[i]).name != (#[trigger] tensors[j]).name
}

/// Bits of element `idx` of a tensor with the given data, where they are a
/// number's.
pub open spec fn number_at(dtype: TensorDtype, data: Seq<u8>, idx: int) -> Result<
    u32,
    StoreError,
> {
    if dtype != TensorDtype::BF16 && dtype != TensorDtype::F32 {
        Err(StoreError::Dtype)
    } else {
        match scalar(dtype, data, idx) {
            Ok(bits) => Ok(bits),
            Err(_) => Err(StoreError::OutOfRange),
        }
    }
}

/// The bits of `n` numbers of a tensor from element `base` on, or why one of
/// them cannot be read.
pub open spec fn is_numbers(
    r: Result<Seq<u32>, StoreError>,
    dtype: TensorDtype,
    data: Seq<u8>,
    base: int,
    n: int,
) -> bool {
    match r {
        Ok(values) => {
            &&& values.len() == n
            &&& forall|i: int|
                0 <= i < n ==> number_at(dtype, data, base + i) == Ok::<u32, StoreError>(
                    #[trigger] values[i],
                )
        },
        Err(e) => exists|i: int|
            0 <= i < n && #[trigger] number_at(dtype, data, base + i) == Err::<u32, StoreError>(e),
    }
}

/// The contents of a list, where there is one.
pub open spec fn contents<T>(r: Result<Vec<T>, StoreError>) -> Result<Seq<T>, StoreError> {
    match r {
        Ok(v) => Ok(v@),
        Err(e) => Err(e),
    }
}

impl<'a> SafeTensorStore<'a> {
    /// The bytes of all shards.
    pub open spec fn files(self) -> Seq<Seq<u8>> {
        shard_bytes(self.shards@)
    }

    /// Every tensor lies inside its shard, and no two have one name.
    pub open spec fn wf(self) -> bool {
        &&& distinct(places(self.tensors@))
        &&& forall|i: int|
            0 <= i < self.tensors@.len() ==> is_inside((#[trigger] self.tensors@[i])@, self.files())
    }

    /// The tensor of that name.
    pub open spec fn tensor(self, name: Seq<char>) -> Option<Located> {
        tensor_from(places(self.tensors@), name, 0)
    }

    /// The data of a tensor.
    pub open spec fn bytes(self, t: Located) -> Seq<u8> {
        self.files()[t.shard].subrange(t.start, t.end)
    }

    /// The matrix of that name.
    pub open spec fn matrix(self, name: Seq<char>) -> Result<Located, StoreError> {
        match self.tensor(name) {
            None => Err(StoreError::Missing),
            Some(t) => if t.shape.len() != 2 {
                Err(StoreError::NotMatrix)
            } else {
                Ok(t)
            },
        }
    }

    /// Opens a checkpoint over the bytes of its shards.
    pub fn open_shards(shards: Vec<&'a [u8]>) -> (r: Result<Self, StoreError>)
        ensures
            match opened(shard_bytes(shards@)) {
                Ok(list) => r matches Ok(store) && store.wf() && store.shards@ == shards@
                    && places(store.tensors@) == list,
                Err(e) => r matches Err(found) && found == e,
            },
    {
        if shards.len() == 0 {
            return Err(StoreError::NoShards);
        }
        let mut tensors: Vec<TensorMeta> = Vec::new();
        let ghost files = shard_bytes(shards@);
        let mut i: usize = 0;
        proof {
            assert(places(tensors@) =~= Seq::<Located>::empty());
        }
        while i < shards.len()
            invariant
                i <= shards@.len(),
                files == shard_bytes(shards@),
                with_shards(files, i as int) == Ok::<Seq<Located>, StoreError>(places(tensors@)),
            decreases shards@.len() - i,
        {
            if let Err(e) = parse_header(&mut tensors, i, shards[i]) {
                proof {
                    lemma_shards_failure_stays(files, i + 1, shards@.len() as int);
                }
                return Err(e);
            }
            i = i + 1;
        }
        proof {
            lemma_opened(files, files.len() as int);
            assert forall|j: int| 0 <= j < tensors@.len() implies is_inside(
                (#[trigger] tensors@[j])@,
                files,
            ) by {
                assert(places(tensors@)[j] == tensors@[j]@);
            }
        }
        Ok(SafeTensorStore { shards, tensors })
    }

    /// Finds a tensor.
    pub fn meta(&self, name: &str) -> (r: Result<&TensorMeta, StoreError>)
        ensures
            match self.tensor(name@) {
                Some(t) => r matches Ok(meta) && meta@ == t && self.tensors@.contains(*meta),
                None => r matches Err(e) && e == StoreError::Missing,
            },
    {
        match position(&self.tensors, name) {
            None => {
                proof {
                    lemma_tensor_from(
                        places(self.tensors@),
                        name@,
                        0,
                        self.tensors@.len() as int,
                    );
                }
                Err(StoreError::Missing)
            },
            Some(i) => {
                proof {
                    lemma_tensor_from(places(self.tensors@), name@, 0, i as int);
                    assert(places(self.tensors@)[i as int] == self.tensors@[i as int]@);
                }
                Ok(&self.tensors[i])
            },
        }
    }

    /// The data of a tensor of this store.
    pub fn data(&self, meta: &TensorMeta) -> (data: &[u8])
        requires
            is_inside(meta@, self.files()),
        ensures
            data@ == self.bytes(meta@),
    {
        let shard = self.shards[meta.shard];
        proof {
            assert(self.files()[meta.shard as int] == shard@);
        }
        slice_subrange(shard, meta.start, meta.end)
    }

    /// Reads the bits of a number.
    pub fn f32_at(&self, meta: &TensorMeta, idx: usize) -> (r: Result<u32, StoreError>)
        requires
            is_inside(meta@, self.files()),
        ensures
            r == number_at(meta.dtype, self.bytes(meta@), idx as int),
    {
        if meta.dtype != TensorDtype::BF16 && meta.dtype != TensorDtype::F32 {
            return Err(StoreError::Dtype);
        }
        match scalar_value(meta.dtype, self.data(meta), idx) {
            Ok(bits) => Ok(bits),
            Err(_) => Err(StoreError::OutOfRange),
        }
    }

    /// Reads the bits of the `n` numbers that follow the first `skipped` groups
    /// of `n`.
    fn numbers(&self, meta: &TensorMeta, skipped: usize, n: usize) -> (r: Result<
        Vec<u32>,
        StoreError,
    >)
        requires
            is_inside(meta@, self.files()),
        ensures
            is_numbers(contents(r), meta.dtype, self.bytes(meta@), skipped * n, n as int),
    {
        let mut out: Vec<u32> = Vec::new();
        proof {
            assert(0 <= skipped * n <= usize::MAX * usize::MAX) by (nonlinear_arith)
                requires
                    0 <= skipped <= usize::MAX,
                    0 <= n <= usize::MAX,
            ;
            assert(usize::MAX * usize::MAX + usize::MAX <= u128::MAX) by (nonlinear_arith)
                requires
                    usize::MAX <= 0xffff_ffff_ffff_ffff,
            ;
        }
        let base: u128 = skipped as u128 * n as u128;
        let mut i: usize = 0;
        while i < n
            invariant
                i <= n,
                base == skipped * n,
                base + n <= u128::MAX,
                is_inside(meta@, self.files()),
                out@.len() == i,
                forall|j: int|
                    0 <= j < i ==> number_at(meta.dtype, self.bytes(meta@), base + j) == Ok::<
                        u32,
                        StoreError,
                    >(#[trigger] out@[j]),
            decreases n - i,
        {
            let at: u128 = base + i as u128;
            let value: Result<u32, StoreError> = if at > usize::MAX as u128 {
                if meta.dtype != TensorDtype::BF16 && meta.dtype != TensorDtype::F32 {
                    Err(StoreError::Dtype)
                } else {
                    proof {
                        assert(self.files()[meta.shard as int]
                            == self.shards@[meta.shard as int]@);
                        assert(self.bytes(meta@).len() <= usize::MAX);
                    }
                    Err(StoreError::OutOfRange)
                }
            } else {
                self.f32_at(meta, at as usize)
            };
            match value {
                Ok(bits) => {
                    out.push(bits);
                },
                Err(e) => {
                    proof {
                        assert(number_at(meta.dtype, self.bytes(meta@), skipped * n + i as int)
                            == Err::<u32, StoreError>(e));
                    }
                    return Err(e);
                },
            }
            i = i + 1;
        }
        Ok(out)
    }
}

proof fn lemma_tensor_from(tensors: Seq<Located>, name: Seq<char>, i: int, n: int)
    requires
        0 <= i <= n <= tensors.len(),
        forall|j: int| i <= j < n ==> (#[trigger] tensors[j]).name != name,
    ensures
        tensor_from(tensors, name, i) == tensor_from(tensors, name, n),
    decreases n - i,
{
    if i < n {
        lemma_tensor_from(tensors, name, i + 1, n);
    }
}

proof fn lemma_entries_keep(
    tensors: Seq<Located>,
    files: Seq<Seq<u8>>,
    shard: int,
    end: int,
    entries: Seq<(Seq<char>, Seq<u8>)>,
    n: int,
)
    requires
        0 <= shard < files.len(),
        0 <= end,
        distinct(tensors),
        forall|i: int| 0 <= i < tensors.len() ==> is_inside(#[trigger] tensors[i], files),
    ensures
        with_entries(tensors, shard, files[shard].len() as int, end, entries, n) matches Ok(list)
            ==> distinct(list) && forall|i: int|
            0 <= i < list.len() ==> is_inside(#[trigger] list[i], files),
    decreases n,
{
    if n > 0 {
        lemma_entries_keep(tensors, files, shard, end, entries, n - 1);
    }
}

proof fn lemma_opened(files: Seq<Seq<u8>>, n: int)
    requires
        0 <= n <= files.len(),
    ensures
        with_shards(files, n) matches Ok(list) ==> distinct(list) && forall|i: int|
            0 <= i < list.len() ==> is_inside(#[trigger] list[i], files),
    decreases n,
{
    if n > 0 {
        lemma_opened(files, n - 1);
        if let Ok(list) = with_shards(files, n - 1) {
            if let Ok(end) = header_end(files[n - 1]) {
                if let JsonShape::Object(entries) = json_shape(files[n - 1].subrange(8, end)) {
                    lemma_entries_keep(list, files, n - 1, end, entries, entries.len() as int);
                }
            }
        }
    }
}

/// The id of an expert, where the data holds one.
pub open spec fn id_at(data: Seq<u8>, idx: int) -> Result<usize, StoreError> {
    if idx * 8 + 8 > data.len() {
        Err(StoreError::OutOfRange)
    } else if signed_value(data, idx * 8) < 0 {
        Err(StoreError::NegativeId)
    } else {
        Ok(signed_value(data, idx * 8) as usize)
    }
}

/// The ids of `n` experts from element `base` on, or why the first of them that
/// cannot be read cannot.
pub open spec fn is_ids(
    r: Result<Seq<usize>, StoreError>,
    data: Seq<u8>,
    base: int,
    n: int,
) -> bool {
    match r {
        Ok(ids) => {
            &&& ids.len() == n
            &&& forall|i: int|
                0 <= i < n ==> id_at(data, base + i) == Ok::<usize, StoreError>(#[trigger] ids[i])
        },
        Err(e) => exists|i: int|
            {
                &&& 0 <= i < n
                &&& #[trigger] id_at(data, base + i) == Err::<usize, StoreError>(e)
                &&& forall|j: int| base <= j < base + i ==> (#[trigger] id_at(data, j)) is Ok
            },
    }
}

proof fn lemma_positive_elements(shape: Seq<usize>, m: nat, n: nat)
    requires
        m <= n <= shape.len(),
        forall|i: int| m <= i < n ==> (#[trigger] shape[i]) > 0,
    ensures
        leading_elements(shape, m) <= leading_elements(shape, n),
    decreases n,
{
    if m < n {
        lemma_positive_elements(shape, m, (n - 1) as nat);
        let before = leading_elements(shape, (n - 1) as nat);
        let d = shape[n - 1] as nat;
        assert(before <= before * d) by (nonlinear_arith)
            requires
                d >= 1,
                before >= 0,
        ;
    }
}

proof fn lemma_zero_elements(shape: Seq<usize>, i: nat, n: nat)
    requires
        i < n <= shape.len(),
        shape[i as int] == 0,
    ensures
        leading_elements(shape, n) == 0,
    decreases n,
{
    let before = leading_elements(shape, (n - 1) as nat);
    if i < n - 1 {
        lemma_zero_elements(shape, i, (n - 1) as nat);
        assert(0 * shape[n - 1] as nat == 0);
    } else {
        assert(before * 0 == 0);
    }
}

/// The number of elements of a shape, where it can be counted.
fn count_elements(shape: &Vec<usize>) -> (n: Option<usize>)
    ensures
        match n {
            Some(n) => n == element_count(shape@),
            None => element_count(shape@) > usize::MAX,
        },
{
    let mut i: usize = 0;
    while i < shape.len()
        invariant
            i <= shape@.len(),
            forall|j: int| 0 <= j < i ==> (#[trigger] shape@[j]) > 0,
        decreases shape@.len() - i,
    {
        if shape[i] == 0 {
            proof {
                lemma_zero_elements(shape@, i as nat, shape@.len());
            }
            return Some(0);
        }
        i = i + 1;
    }
    let mut n: usize = 1;
    let mut k: usize = 0;
    while k < shape.len()
        invariant
            k <= shape@.len(),
            forall|j: int| 0 <= j < shape@.len() ==> (#[trigger] shape@[j]) > 0,
            n == leading_elements(shape@, k as nat),
        decreases shape@.len() - k,
    {
        match n.checked_mul(shape[k]) {
            Some(m) => {
                n = m;
            },
            None => {
                proof {
                    lemma_positive_elements(shape@, (k + 1) as nat, shape@.len());
                }
                return None;
            },
        }
        k = k + 1;
    }
    Some(n)
}

impl<'a> SafeTensorStore<'a> {
    /// Reads the bits of all numbers of a tensor.
    pub fn vec_f32(&self, name: &str) -> (r: Result<Vec<u32>, StoreError>)
        requires
            self.wf(),
        ensures
            match self.tensor(name@) {
                None => r matches Err(e) && e == StoreError::Missing,
                Some(t) => is_numbers(
                    contents(r),
                    t.dtype,
                    self.bytes(t),
                    0,
                    element_count(t.shape) as int,
                ),
            },
    {
        let meta = match self.meta(name) {
            Ok(meta) => meta,
            Err(e) => {
                return Err(e);
            },
        };
        match count_elements(&meta.shape) {
            Some(n) => {
                proof {
                    assert(0 * n == 0);
                }
                self.numbers(meta, 0, n)
            },
            None => {
                let ghost data = self.bytes(meta@);
                proof {
                    assert(self.files()[meta.shard as int] == self.shards@[meta.shard as int]@);
                    assert(data.len() <= usize::MAX);
                }
                if meta.dtype != TensorDtype::BF16 && meta.dtype != TensorDtype::F32 {
                    proof {
                        assert(number_at(meta.dtype, data, 0 + 0int) == Err::<u32, StoreError>(
                            StoreError::Dtype,
                        ));
                    }
                    Err(StoreError::Dtype)
                } else {
                    proof {
                        assert(number_at(meta.dtype, data, 0 + data.len() as int) == Err::<
                            u32,
                            StoreError,
                        >(StoreError::OutOfRange));
                    }
                    Err(StoreError::OutOfRange)
                }
            },
        }
    }

    /// Reads the bits of a row of a matrix.
    pub fn row_f32(&self, name: &str, row: usize) -> (r: Result<Vec<u32>, StoreError>)
        requires
            self.wf(),
        ensures
            match self.matrix(name@) {
                Err(e) => r matches Err(found) && found == e,
                Ok(t) => if row >= t.shape[0] {
                    r matches Err(found) && found == StoreError::Row
                } else {
                    is_numbers(
                        contents(r),
                        t.dtype,
                        self.bytes(t),
                        row * t.shape[1],
                        t.shape[1] as int,
                    )
                },
            },
    {
        let meta = match self.meta(name) {
            Ok(meta) => meta,
            Err(e) => {
                return Err(e);
            },
        };
        if meta.shape.len() != 2 {
            return Err(StoreError::NotMatrix);
        }
        if row >= meta.shape[0] {
            return Err(StoreError::Row);
        }
        self.numbers(meta, row, meta.shape[1])
    }

    /// The extent of a matrix that takes inputs of a length.
    pub fn matvec_shape(&self, name: &str, input: usize) -> (r: Result<
        (usize, usize),
        StoreError,
    >)
        requires
            self.wf(),
        ensures
            r == (match self.matrix(name@) {
                Err(e) => Err::<(usize, usize), StoreError>(e),
                Ok(t) => if t.shape[1] != input {
                    Err(StoreError::InputLength)
                } else {
                    Ok((t.shape[0], t.shape[1]))
                },
            }),
    {
        let meta = match self.meta(name) {
            Ok(meta) => meta,
            Err(e) => {
                return Err(e);
            },
        };
        if meta.shape.len() != 2 {
            return Err(StoreError::NotMatrix);
        }
        if meta.shape[1] != input {
            return Err(StoreError::InputLength);
        }
        Ok((meta.shape[0], meta.shape[1]))
    }

    /// Reads the bits of a row by which an input of a length is multiplied.
    pub fn dot_row(&self, name: &str, row: usize, input: usize) -> (r: Result<
        Vec<u32>,
        StoreError,
    >)
        requires
            self.wf(),
        ensures
            match self.matrix(name@) {
                Err(e) => r matches Err(found) && found == e,
                Ok(t) => if row >= t.shape[0] {
                    r matches Err(found) && found == StoreError::Row
                } else if t.shape[1] != input {
                    r matches Err(found) && found == StoreError::InputLength
                } else {
                    is_numbers(
                        contents(r),
                        t.dtype,
                        self.bytes(t),
                        row * t.shape[1],
                        t.shape[1] as int,
                    )
                },
            },
    {
        let meta = match self.meta(name) {
            Ok(meta) => meta,
            Err(e) => {
                return Err(e);
            },
        };
        if meta.shape.len() != 2 {
            return Err(StoreError::NotMatrix);
        }
        if row >= meta.shape[0] {
            return Err(StoreError::Row);
        }
        if meta.shape[1] != input {
            return Err(StoreError::InputLength);
        }
        self.numbers(meta, row, input)
    }

    /// Reads a row of a table of expert ids.
    pub fn row_usize(&self, name: &str, row: usize) -> (r: Result<Vec<usize>, StoreError>)
        requires
            self.wf(),
        ensures
            match self.tensor(name@) {
                None => r matches Err(e) && e == StoreError::Missing,
                Some(t) => if t.dtype != TensorDtype::I64 {
                    r matches Err(e) && e == StoreError::Dtype
                } else if t.shape.len() != 2 {
                    r matches Err(e) && e == StoreError::NotMatrix
                } else if row >= t.shape[0] {
                    r matches Err(e) && e == StoreError::Row
                } else {
                    is_ids(contents(r), self.bytes(t), row * t.shape[1], t.shape[1] as int)
                },
            },
    {
        let meta = match self.meta(name) {
            Ok(meta) => meta,
            Err(e) => {
                return Err(e);
            },
        };
        if meta.dtype != TensorDtype::I64 {
            return Err(StoreError::Dtype);
        }
        if meta.shape.len() != 2 {
            return Err(StoreError::NotMatrix);
        }
        if row >= meta.shape[0] {
            return Err(StoreError::Row);
        }
        let cols: usize = meta.shape[1];
        let data = self.data(meta);
        let total: usize = data.len();
        proof {
            assert(0 <= row * cols <= usize::MAX * usize::MAX) by (nonlinear_arith)
                requires
                    0 <= row <= usize::MAX,
                    0 <= cols <= usize::MAX,
            ;
            assert(usize::MAX * usize::MAX + usize::MAX <= u128::MAX) by (nonlinear_arith)
                requires
                    usize::MAX <= 0xffff_ffff_ffff_ffff,
            ;
        }
        let base: u128 = row as u128 * cols as u128;
        let mut ids: Vec<usize> = Vec::new();
        let mut i: usize = 0;
        while i < cols
            invariant
                i <= cols,
                base == row * cols,
                base + cols <= u128::MAX,
                total == data@.len(),
                ids@.len() == i,
                forall|j: int|
                    0 <= j < i ==> id_at(data@, base + j) == Ok::<usize, StoreError>(
                        #[trigger] ids@[j],
                    ),
                forall|j: int| base <= j < base + i ==> (#[trigger] id_at(data@, j)) is Ok,
                data@ == self.bytes(meta@),
                self.tensor(name@) == Some(meta@),
                meta.dtype == TensorDtype::I64,
                meta.shape@.len() == 2,
                row < meta.shape@[0],
                cols == meta.shape@[1],
            decreases cols - i,
        {
            let at: u128 = base + i as u128;
            if total < 8 || at > ((total - 8) / 8) as u128 {
                proof {
                    assert(id_at(data@, row * cols + i as int) == Err::<usize, StoreError>(
                        StoreError::OutOfRange,
                    ));
                }
                return Err(StoreError::OutOfRange);
            }
            let value: i64 = read_signed(data, at as usize * 8);
            if value < 0 {
                proof {
                    assert(id_at(data@, row * cols + i as int) == Err::<usize, StoreError>(
                        StoreError::NegativeId,
                    ));
                }
                return Err(StoreError::NegativeId);
            }
            ids.push(value as usize);
            i = i + 1;
        }
        Ok(ids)
    }
}

/// The names of the shards that the first `n` entries of a weight map give.
pub open spec fn mapped_shards(entries: Seq<(Seq<char>, Seq<u8>)>, n: int) -> Option<
    Seq<Seq<char>>,
>
    decreases n,
{
    if n <= 0 {
        Some(Seq::empty())
    } else {
        match (mapped_shards(entries, n - 1), json_string(entries[n - 1].1)) {
            (Some(names), Some(name)) => Some(names.push(name)),
            _ => None,
        }
    }
}

/// The names of shards that an index gives, one for each tensor.
pub open spec fn indexed_shards(index: Seq<u8>) -> Result<Seq<Seq<char>>, StoreError> {
    match json_shape(index) {
        JsonShape::Malformed => Err(StoreError::IndexJson),
        JsonShape::Object(members) => match member(members, "weight_map"@) {
            None => Err(StoreError::WeightMap),
            Some(text) => match json_shape(text) {
                JsonShape::Object(entries) => match mapped_shards(
                    entries,
                    entries.len() as int,
                ) {
                    None => Err(StoreError::ShardName),
                    Some(names) => Ok(names),
                },
                _ => Err(StoreError::WeightMap),
            },
        },
        _ => Err(StoreError::WeightMap),
    }
}

proof fn lemma_unmapped_stays(entries: Seq<(Seq<char>, Seq<u8>)>, m: int, n: int)
    requires
        m <= n,
        mapped_shards(entries, m) is None,
    ensures
        mapped_shards(entries, n) is None,
    decreases n - m,
{
    if m < n {
        lemma_unmapped_stays(entries, m, n - 1);
    }
}

fn read_shards(entries: &Vec<JsonMember>) -> (r: Option<Vec<String>>)
    ensures
        match mapped_shards(member_texts(entries@), entries@.len() as int) {
            None => r is None,
            Some(names) => r matches Some(v) && texts(v@) == names,
        },
{
    let ghost members = member_texts(entries@);
    let mut names: Vec<String> = Vec::new();
    let mut i: usize = 0;
    proof {
        assert(texts(names@) =~= Seq::<Seq<char>>::empty());
    }
    while i < entries.len()
        invariant
            i <= entries@.len(),
            members == member_texts(entries@),
            mapped_shards(members, i as int) == Some(texts(names@)),
        decreases entries@.len() - i,
    {
        proof {
            assert(members[i as int].1 == entries@[i as int].value@);
        }
        match read_string(entries[i].value.as_slice()) {
            None => {
                proof {
                    lemma_unmapped_stays(members, i + 1, entries@.len() as int);
                }
                return None;
            },
            Some(name) => {
                let ghost kept = texts(names@);
                let ghost added = name@;
                names.push(name);
                proof {
                    assert(texts(names@) =~= kept.push(added));
                }
            },
        }
        i = i + 1;
    }
    Some(names)
}

/// The shards among which tensors are listed: in order, each once.
pub fn listed_shards(names: Vec<String>) -> (r: Result<Vec<String>, StoreError>)
    ensures
        if names@.len() == 0 {
            r matches Err(e) && e == StoreError::EmptyIndex
        } else {
            r matches Ok(shards) && is_sorted_set(texts(shards@), texts(names@))
        },
{
    if names.len() == 0 {
        return Err(StoreError::EmptyIndex);
    }
    Ok(sorted_set(names))
}

/// The shards that an index names, in order, each once.
pub fn resolve_index(index: &[u8]) -> (r: Result<Vec<String>, StoreError>)
    ensures
        match indexed_shards(index@) {
            Err(e) => r matches Err(found) && found == e,
            Ok(names) => if names.len() == 0 {
                r matches Err(e) && e == StoreError::EmptyIndex
            } else {
                r matches Ok(shards) && is_sorted_set(texts(shards@), names)
            },
        },
{
    let members: Vec<JsonMember> = match read_parts(index) {
        JsonParts::Malformed => {
            return Err(StoreError::IndexJson);
        },
        JsonParts::Object(members) => members,
        _ => {
            return Err(StoreError::WeightMap);
        },
    };
    proof {
        assert(json_shape(index@) == JsonShape::Object(member_texts(members@)));
    }
    let entries: Vec<JsonMember> = match find_member(&members, "weight_map") {
        None => {
            return Err(StoreError::WeightMap);
        },
        Some(text) => match read_parts(text.as_slice()) {
            JsonParts::Object(entries) => {
                proof {
                    assert(json_shape(text@) == JsonShape::Object(member_texts(entries@)));
                }
                entries
            },
            _ => {
                return Err(StoreError::WeightMap);
            },
        },
    };
    match read_shards(&entries) {
        None => Err(StoreError::ShardName),
        Some(names) => listed_shards(names),
    }
}

/// Where the shards of a checkpoint are named.
#[derive(Clone, Copy, Debug, PartialEq, Eq, Structural)]
pub enum ShardSource {
    /// There is one file.
    Single,
    /// An index names them.
    Index,
}

/// An index decides unless there is only the single file.
pub fn shard_source(single_exists: bool, index_exists: bool) -> (source: ShardSource)
    ensures
        source == (if single_exists && !index_exists {
            ShardSource::Single
        } else {
            ShardSource::Index
        }),
{
    if single_exists && !index_exists {
        ShardSource::Single
    } else {
        ShardSource::Index
    }
}

/// In an opened checkpoint no two tensors have one name, and the data of each
/// lies inside a shard.
pub proof fn law_opened_tensors_lie_inside(files: Seq<Seq<u8>>, list: Seq<Located>)
    requires
        opened(files) == Ok::<Seq<Located>, StoreError>(list),
    ensures
        distinct(list),
        forall|i: int| 0 <= i < list.len() ==> is_inside(#[trigger] list[i], files),
{
    lemma_opened(files, files.len() as int);
}

/// A tensor is found under its name.
pub proof fn law_tensors_are_found(tensors: Seq<Located>, i: int)
    requires
        distinct(tensors),
        0 <= i < tensors.len(),
    ensures
        tensor_from(tensors, tensors[i].name, 0) == Some(tensors[i]),
{
    lemma_tensor_from(tensors, tensors[i].name, 0, i);
}

/// A header whose claims fit lists no end offset that would leave the file, or
/// the sizes of this machine, together with the header and its length.
pub proof fn law_fitting_claims_can_be_added(
    file: Seq<u8>,
    entries: Seq<(Seq<char>, Seq<u8>)>,
    i: int,
)
    requires
        claims_fit(file),
        json_shape(file.subrange(8, header_end(file)->Ok_0)) == JsonShape::Object(entries),
        0 <= i < entries.len(),
        entries[i].0 != "__metadata__"@,
    ensures
        entry_end(entries[i].1) is Some,
        entry_end(entries[i].1)->Some_0 + 8 + little_endian(file, 0, 8) <= file.len(),
{
}

/// A tensor lies where its entry says, counted from the end of the header, and is
/// what its entry says; it is refused exactly where it would begin behind its end or
/// reach past the file.
pub proof fn law_tensors_lie_where_their_entry_says(
    shard: int,
    file_len: int,
    header_end: int,
    name: Seq<char>,
    dtype: Seq<char>,
    shape: Seq<usize>,
    begin: int,
    finish: int,
)
    ensures
        located(shard, file_len, header_end, name, dtype, shape, begin, finish) is Ok <==> begin
            <= finish && finish <= file_len - header_end,
        located(shard, file_len, header_end, name, dtype, shape, begin, finish) matches Ok(t) ==> {
            &&& t.name == name
            &&& t.shard == shard
            &&& t.shape == shape
            &&& t.start - header_end == begin
            &&& t.end - t.start == finish - begin
            &&& t.dtype is BF16 <==> dtype == "BF16"@
            &&& t.dtype is F32 <==> dtype == "F32"@
            &&& t.dtype is I64 <==> dtype == "I64"@
        },
{
    reveal_strlit("BF16");
    reveal_strlit("F32");
    reveal_strlit("I64");
    assert("BF16"@.len() == 4);
    assert("F32"@[0] == 'F' && "I64"@[0] == 'I');
    assert("F32"@.len() == 3 && "I64"@.len() == 3);
}

/// The header follows its length: the first eight bytes count the bytes behind them
/// that belong to it.
pub proof fn law_headers_end_where_their_length_says(file: Seq<u8>)
    ensures
        header_end(file) matches Ok(end) ==> {
            &&& file.len() >= 8
            &&& end - 8 == little_endian(file, 0, 8)
            &&& 8 <= end <= file.len()
        },
        file.len() < 8 ==> header_end(file) == Err::<int, StoreError>(StoreError::TooSmall),
        file.len() >= 8 && little_endian(file, 0, 8) <= file.len() - 8 ==> header_end(file) is Ok,
{
}

/// Every entry of a header but the metadata is listed, with what it describes; what
/// was listed before stays in front.
pub proof fn law_every_entry_is_listed(
    tensors: Seq<Located>,
    shard: int,
    file_len: int,
    header_end: int,
    entries: Seq<(Seq<char>, Seq<u8>)>,
    n: int,
    i: int,
)
    requires
        with_entries(tensors, shard, file_len, header_end, entries, n) is Ok,
        0 <= i < n <= entries.len(),
    ensures
        ({
            let list = with_entries(tensors, shard, file_len, header_end, entries, n)->Ok_0;
            &&& tensors.len() <= list.len() <= tensors.len() + n
            &&& list.subrange(0, tensors.len() as int) == tensors
            &&& entries[i].0 != "__metadata__"@ ==> exists|k: int|
                tensors.len() <= k < list.len() && (#[trigger] list[k]).name == entries[i].0
                    && entry_located(shard, file_len, header_end, entries[i].0, entries[i].1)
                    == Ok::<Located, StoreError>(list[k])
        }),
    decreases n,
{
    let before = with_entries(tensors, shard, file_len, header_end, entries, n - 1)->Ok_0;
    let list = with_entries(tensors, shard, file_len, header_end, entries, n)->Ok_0;
    assert(with_entries(tensors, shard, file_len, header_end, entries, n - 1) is Ok);
    if n > 1 {
        law_every_entry_is_listed(
            tensors,
            shard,
            file_len,
            header_end,
            entries,
            n - 1,
            if i < n - 1 {
                i
            } else {
                0
            },
        );
    } else {
        assert(before == tensors);
        assert(before.subrange(0, tensors.len() as int) =~= tensors);
    }
    if entries[n - 1].0 == "__metadata__"@ {
        assert(list == before);
    } else {
        let t = entry_located(shard, file_len, header_end, entries[n - 1].0, entries[n - 1].1);
        assert(list == before.push(t->Ok_0));
        assert(list.subrange(0, tensors.len() as int) =~= before.subrange(
            0,
            tensors.len() as int,
        ));
        assert(list[before.len() as int] == t->Ok_0);
        if i < n - 1 && entries[i].0 != "__metadata__"@ {
            let k = choose|k: int|
                tensors.len() <= k < before.len() && (#[trigger] before[k]).name == entries[i].0
                    && entry_located(shard, file_len, header_end, entries[i].0, entries[i].1)
                    == Ok::<Located, StoreError>(before[k]);
            assert(list[k] == before[k]);
        }
    }
}

/// A row of a matrix is the part of all its numbers that begins behind the rows
/// before it.
pub proof fn law_rows_are_parts_of_the_whole(
    dtype: TensorDtype,
    data: Seq<u8>,
    all: Seq<u32>,
    row: Seq<u32>,
    rows: int,
    cols: int,
    r: int,
    i: int,
)
    requires
        is_numbers(Ok(all), dtype, data, 0, rows * cols),
        is_numbers(Ok(row), dtype, data, r * cols, cols),
        0 <= r < rows,
        0 <= i < cols,
    ensures
        row.len() == cols,
        all.len() == rows * cols,
        0 <= r * cols + i < rows * cols,
        row[i] == all[r * cols + i],
        dtype == TensorDtype::BF16 || dtype == TensorDtype::F32,
{
    assert(0 <= r * cols + i < rows * cols) by (nonlinear_arith)
        requires
            0 <= r < rows,
            0 <= i < cols,
    ;
    assert(number_at(dtype, data, 0 + (r * cols + i)) == Ok::<u32, StoreError>(
        all[r * cols + i],
    ));
    assert(number_at(dtype, data, r * cols + i) == Ok::<u32, StoreError>(row[i]));
}

/// An index gives the shard of every tensor of its weight map, in order.
pub proof fn law_indexes_name_a_shard_per_tensor(
    entries: Seq<(Seq<char>, Seq<u8>)>,
    n: int,
    i: int,
)
    requires
        mapped_shards(entries, n) is Some,
        0 <= i < n <= entries.len(),
    ensures
        mapped_shards(entries, n)->Some_0.len() == n,
        json_string(entries[i].1) == Some(mapped_shards(entries, n)->Some_0[i]),
    decreases n,
{
    assert(mapped_shards(entries, n - 1) is Some);
    if n > 1 {
        law_indexes_name_a_shard_per_tensor(
            entries,
            n - 1,
            if i < n - 1 {
                i
            } else {
                0
            },
        );
    } else {
        assert(mapped_shards(entries, 0)->Some_0.len() == 0);
    }
}

/// The data holds an id that is not negative as its element `at`.
pub open spec fn holds_id(data: Seq<u8>, at: int) -> bool {
    at * 8 + 8 <= data.len() && signed_value(data, at * 8) >= 0
}

/// Ids of experts are read one after another, eight bytes each: all are read exactly
/// where the data holds them and none is negative.
pub proof fn law_ids_are_read_in_order(
    r: Result<Seq<usize>, StoreError>,
    data: Seq<u8>,
    base: int,
    n: int,
)
    requires
        0 <= n,
        0 <= base,
        is_ids(r, data, base, n),
    ensures
        r is Ok <==> forall|j: int| base <= j < base + n ==> #[trigger] holds_id(data, j),
        r matches Ok(ids) ==> ids.len() == n && forall|i: int|
            0 <= i < n ==> #[trigger] ids[i] == signed_value(data, (base + i) * 8) as usize,
{
    if let Ok(ids) = r {
        assert forall|j: int| base <= j < base + n implies #[trigger] holds_id(data, j) by {
            assert(id_at(data, base + (j - base)) == Ok::<usize, StoreError>(ids[j - base]));
        }
    } else {
        let i = choose|i: int|
            {
                &&& 0 <= i < n
                &&& #[trigger] id_at(data, base + i) == Err::<usize, StoreError>(r->Err_0)
                &&& forall|j: int| base <= j < base + i ==> (#[trigger] id_at(data, j)) is Ok
            };
        assert(!holds_id(data, base + i));
    }
}

} // verus!
