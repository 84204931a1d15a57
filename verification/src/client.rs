use vstd::prelude::*;

use crate::error::Error;
use crate::injector::{ClassBlob, ClientTrait, blob_views, clone_blob};
use crate::marshal::copy_bytes;
use crate::strutil::{concat_strs, spec_ends_with, str_ends_with};

verus! {

/// Path of the archive holding the runtime-side client classes, derived
/// from the workspace base directory. It must agree with the path the
/// runtime-side build writes its bundled archive to.
pub fn get_client_classes_path(base: &str) -> (r: String)
    ensures
        r@ == base@ + "\\b_client\\build\\libs\\b_client-1.0-SNAPSHOT-all.jar"@,
{
    concat_strs(base, "\\b_client\\build\\libs\\b_client-1.0-SNAPSHOT-all.jar")
}

#[verifier::external_type_specification]
#[verifier::external_body]
#[verifier::reject_recursive_types(T)]
pub struct ExCursor<T>(std::io::Cursor<T>);

#[verifier::external_type_specification]
#[verifier::external_body]
#[verifier::reject_recursive_types(R)]
pub struct ExZipArchive<R>(zip::ZipArchive<R>);

/// The entries of an opened archive, each a name and the decompressed bytes,
/// in directory order.
pub uninterp spec fn jar_entries(archive: zip::ZipArchive<std::io::Cursor<Vec<u8>>>) -> Seq<
    (Seq<char>, Seq<u8>),
>;

/// The entries encoded by an archive's raw bytes: what any archive opened
/// over those bytes holds. The entry list is a function of the bytes alone.
pub uninterp spec fn jar_entries_of_bytes(bytes: Seq<u8>) -> Seq<(Seq<char>, Seq<u8>)>;

/// Relies on zip::ZipArchive::new: reads the central directory of the
/// archive held in the in-memory cursor; the resulting entry list is a
/// function of the archive bytes alone.
#[verifier::external_body]
fn open_jar(bytes: Vec<u8>) -> (r: Result<zip::ZipArchive<std::io::Cursor<Vec<u8>>>, Error>)
    ensures
        r matches Ok(a) ==> jar_entries(a) == jar_entries_of_bytes(bytes@),
        r matches Err(e) ==> e matches Error::IOFailure,
{
    match zip::ZipArchive::new(std::io::Cursor::new(bytes)) {
        Ok(a) => Ok(a),
        Err(_) => Err(Error::IOFailure),
    }
}

/// Relies on zip::ZipArchive::len: the number of entries the archive holds.
#[verifier::external_body]
fn jar_len(archive: &zip::ZipArchive<std::io::Cursor<Vec<u8>>>) -> (r: usize)
    ensures
        r == jar_entries(*archive).len(),
{
    archive.len()
}

/// Relies on zip::ZipArchive::by_index and the entry's Read implementation:
/// hands back the name and decompressed bytes of entry `i`. Reading moves
/// the underlying cursor but leaves the archive's directory, and with it the
/// entry list, as it was.
#[verifier::external_body]
fn read_jar_entry(archive: &mut zip::ZipArchive<std::io::Cursor<Vec<u8>>>, i: usize) -> (r:
    Result<(String, Vec<u8>), Error>)
    requires
        i < jar_entries(*old(archive)).len(),
    ensures
        jar_entries(*final(archive)) == jar_entries(*old(archive)),
        r matches Ok(e) ==> e.0@ == jar_entries(*old(archive))[i as int].0 && e.1@ == jar_entries(
            *old(archive),
        )[i as int].1,
        r matches Err(e) ==> e matches Error::IOFailure,
{
    match archive.by_index(i) {
        Ok(mut file) => {
            let name = file.name().to_string();
            let mut data: Vec<u8> = Vec::new();
            match std::io::Read::read_to_end(&mut file, &mut data) {
                Ok(_) => Ok((name, data)),
                Err(_) => Err(Error::IOFailure),
            }
        },
        Err(_) => Err(Error::IOFailure),
    }
}

/// True when the entry name carries the suffix of a class file.
pub open spec fn spec_is_class_entry(name: Seq<char>) -> bool {
    spec_ends_with(name, ".class"@)
}

/// The entries whose name ends in `.class`, in order.
pub open spec fn spec_class_entries(entries: Seq<(Seq<char>, Seq<u8>)>) -> Seq<
    (Seq<char>, Seq<u8>),
>
    decreases entries.len(),
{
    if entries.len() == 0 {
        Seq::empty()
    } else {
        let rest = spec_class_entries(entries.drop_last());
        if spec_is_class_entry(entries.last().0) {
            rest.push(entries.last())
        } else {
            rest
        }
    }
}

/// Keeps exactly the blobs whose name ends in `.class`, in their original
/// order.
pub fn filter_class_blobs(blobs: &Vec<ClassBlob>) -> (r: Vec<ClassBlob>)
    ensures
        blob_views(r@) == spec_class_entries(blob_views(blobs@)),
{
    let n = blobs.len();
    let mut out: Vec<ClassBlob> = Vec::new();
    let mut i: usize = 0;
    while i < n
        invariant
            n == blobs@.len(),
            0 <= i <= n,
            blob_views(out@) =~= spec_class_entries(blob_views(blobs@).subrange(0, i as int)),
        decreases n - i,
    {
        let ghost prefix = blob_views(blobs@).subrange(0, i as int);
        let ghost next = blob_views(blobs@).subrange(0, i + 1);
        proof {
            assert(next.drop_last() =~= prefix);
            assert(next.last() == blob_views(blobs@)[i as int]);
        }
        if str_ends_with(blobs[i].name.as_str(), ".class") {
            out.push(clone_blob(&blobs[i]));
            proof {
                assert(blob_views(out@) =~= spec_class_entries(next));
            }
        } else {
            proof {
                assert(blob_views(out@) =~= spec_class_entries(next));
            }
        }
        i += 1;
    }
    proof {
        assert(blob_views(blobs@).subrange(0, n as int) =~= blob_views(blobs@));
    }
    out
}

/// The class provider: supplies the classes bundled in the runtime-side
/// client archive and the name and method of the runtime-side dispatcher.
pub struct Client {
    pub jar_bytes: Vec<u8>,
}

impl Client {
    /// Builds a provider over the raw bytes of the client archive; reading
    /// those bytes from disk is the caller's concern.
    pub fn with_jar(jar_bytes: Vec<u8>) -> (r: Client)
        ensures
            r.jar_bytes@ == jar_bytes@,
    {
        Client { jar_bytes }
    }

    /// The `.class` entries of the held archive, as blobs, in entry order.
    /// Fails with `IOFailure` when the archive cannot be opened or an entry
    /// cannot be decompressed.
    pub fn jar_class_blobs(&self) -> (r: Result<Vec<ClassBlob>, Error>)
        ensures
            r matches Ok(blobs) ==> blob_views(blobs@) == spec_class_entries(
                jar_entries_of_bytes(self.jar_bytes@),
            ),
            r matches Err(e) ==> e matches Error::IOFailure,
    {
        let mut archive = match open_jar(copy_bytes(&self.jar_bytes)) {
            Ok(a) => a,
            Err(e) => {
                return Err(e);
            },
        };
        let n = jar_len(&archive);
        let mut all: Vec<ClassBlob> = Vec::new();
        let mut i: usize = 0;
        while i < n
            invariant
                jar_entries(archive) == jar_entries_of_bytes(self.jar_bytes@),
                n == jar_entries(archive).len(),
                0 <= i <= n,
                blob_views(all@) =~= jar_entries(archive).subrange(0, i as int),
            decreases n - i,
        {
            let ghost pre = all@;
            match read_jar_entry(&mut archive, i) {
                Ok(entry) => {
                    let (name, bytes) = entry;
                    all.push(ClassBlob { name, bytes });
                    proof {
                        assert(blob_views(all@).drop_last() =~= blob_views(pre));
                        assert(blob_views(all@).last() == jar_entries(archive)[i as int]);
                        assert(jar_entries(archive).subrange(0, i + 1) =~= jar_entries(
                            archive,
                        ).subrange(0, i as int).push(jar_entries(archive)[i as int]));
                        assert(blob_views(all@) =~= jar_entries(archive).subrange(0, i + 1));
                    }
                },
                Err(e) => {
                    return Err(e);
                },
            }
            i += 1;
        }
        proof {
            assert(blob_views(all@) =~= jar_entries(archive));
        }
        Ok(filter_class_blobs(&all))
    }
}

impl ClientTrait for Client {
    open spec fn spec_retransformer_class_name(&self) -> Seq<char> {
        "io.github.brqnko.retransformer.Retransformer"@
    }

    open spec fn spec_retransform_method_name(&self) -> Seq<char> {
        "retransform"@
    }

    fn new() -> Self {
        Client { jar_bytes: Vec::new() }
    }

    /// Client classes used by the load hook: the class entries of the
    /// bundled archive.
    fn client_classes(&self) -> Result<Vec<ClassBlob>, Error> {
        self.jar_class_blobs()
    }

    /// Class names to retransform under the single-shot protocol variant.
    fn class_names_to_retransform(&self) -> Result<Vec<String>, Error> {
        let mut names: Vec<String> = Vec::new();
        names.push("bew".to_owned());
        Ok(names)
    }

    /// Classes to retransform: the same bundled class entries.
    fn retransform_classes(&self) -> Result<Vec<ClassBlob>, Error> {
        self.jar_class_blobs()
    }

    fn retransformer_class_name(&self) -> (r: &str) {
        "io.github.brqnko.retransformer.Retransformer"
    }

    fn retransform_method_name(&self) -> (r: &str) {
        "retransform"
    }
}

} // verus!
