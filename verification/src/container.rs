//! The multi-resolution icon container: packs square RGBA8 images into one
//! ICO file, in the order supplied.

use crate::error::{failure, processing_failure, ErrorKind, FavisError, FavisErrorView};
use crate::icon_sizes::ICO_MAX_SIZE;
use crate::img::rgba_len;
use crate::text::{append, append_str, chars_of, decimal, decimal_chars, string_of};
use vstd::prelude::*;

verus! {

/// Declares `ico::IconDir`, the collection of images of one ICO file, as an
/// opaque type.
#[verifier::external_type_specification]
#[verifier::external_body]
pub struct ExIconDir(ico::IconDir);

/// Declares `std::io::Error`, the error of the ICO encoder, as an opaque
/// type.
#[verifier::external_type_specification]
#[verifier::external_body]
pub struct ExIoError(std::io::Error);

/// Most images that one container takes. With images of at most
/// [`ICO_MAX_SIZE`] pixels this keeps every offset of the directory far
/// inside the 32 bits that the format gives it.
pub const MAX_CONTAINER_IMAGES: usize = 1024;

/// An image as the container sees it: its edge in pixels and its RGBA8
/// samples.
pub type Image = (u32, Seq<u8>);

/// The images that a directory embeds, oldest first, each as its edge and the
/// RGBA8 samples it was encoded from.
pub uninterp spec fn dir_images(dir: ico::IconDir) -> Seq<Image>;

/// Whether the directory was made for icons rather than cursors and every
/// entry in it was made by `ico::IconDirEntry::encode` from an image without
/// a cursor hotspot. Of such a directory the file is a function of the
/// images alone.
pub uninterp spec fn holds_encoded_icons(dir: ico::IconDir) -> bool;

/// Whether `ico::IconDirEntry::encode` succeeds on a square image of the
/// given edge and samples.
pub uninterp spec fn entry_encodes(size: u32, rgba: Seq<u8>) -> bool;

/// The ICO file that `ico::IconDir::write` produces for a directory of icons
/// that embeds the given images, each encoded by `ico::IconDirEntry::encode`;
/// `None` where writing fails.
pub uninterp spec fn ico_file(images: Seq<Image>) -> Option<Seq<u8>>;

/// Whether the container can embed the image: an edge from 1 to
/// [`ICO_MAX_SIZE`] pixels and four bytes per pixel.
pub open spec fn image_fits(image: Image) -> bool {
    1 <= image.0 <= ICO_MAX_SIZE && image.1.len() == rgba_len(image.0, image.0)
}

/// Whether every image of the list can be embedded.
pub open spec fn all_fit(images: Seq<Image>) -> bool {
    forall|i: int| 0 <= i < images.len() ==> image_fits(#[trigger] images[i])
}

/// Makes an empty icon directory with `ico::IconDir::new`. An empty
/// directory has no entry of another making.
#[verifier::external_body]
fn new_dir() -> (dir: ico::IconDir)
    ensures
        dir_images(dir) == Seq::<Image>::empty(),
        holds_encoded_icons(dir),
{
    ico::IconDir::new(ico::ResourceType::Icon)
}

/// Encodes one square image with `ico::IconImage::from_rgba_data` and
/// `ico::IconDirEntry::encode`, and appends the entry with
/// `ico::IconDir::add_entry`. The contract claims that the directory gains
/// exactly this image at its end if encoding succeeds and is unchanged if it
/// fails, that it stays a directory of icons made this way, and names
/// whether encoding succeeds.
#[verifier::external_body]
fn add_image(dir: &mut ico::IconDir, size: u32, rgba: &Vec<u8>) -> (r: Result<(), std::io::Error>)
    requires
        holds_encoded_icons(*old(dir)),
        image_fits((size, rgba@)),
    ensures
        holds_encoded_icons(*final(dir)),
        match r {
            Ok(_) => entry_encodes(size, rgba@) && dir_images(*final(dir)) == dir_images(
                *old(dir),
            ).push((size, rgba@)),
            Err(_) => !entry_encodes(size, rgba@) && dir_images(*final(dir)) == dir_images(
                *old(dir),
            ),
        },
{
    let image = ico::IconImage::from_rgba_data(size, size, rgba.clone());
    let entry = ico::IconDirEntry::encode(&image)?;
    dir.add_entry(entry);
    Ok(())
}

/// Writes the directory into memory with `ico::IconDir::write`. The writer
/// puts out the resource type and, for each entry, its stored encoding; for
/// a directory of icons that were all encoded by [`add_image`] these follow
/// from the images, and the contract names the outcome over them.
#[verifier::external_body]
fn write_dir(dir: &ico::IconDir) -> (r: Result<Vec<u8>, std::io::Error>)
    requires
        holds_encoded_icons(*dir),
        dir_images(*dir).len() <= MAX_CONTAINER_IMAGES,
        all_fit(dir_images(*dir)),
    ensures
        match r {
            Ok(file) => ico_file(dir_images(*dir)) == Some(file@),
            Err(_) => ico_file(dir_images(*dir)) is None,
        },
{
    let mut file: Vec<u8> = Vec::new();
    dir.write(&mut file)?;
    Ok(file)
}

/// One image for the container: its edge in pixels and its RGBA8 samples.
#[derive(Debug)]
pub struct ContainerEntry {
    pub size: u32,
    pub payload: Vec<u8>,
}

impl View for ContainerEntry {
    type V = Image;

    open spec fn view(&self) -> Image {
        (self.size, self.payload@)
    }
}

impl ContainerEntry {
    /// Whether the container can embed the entry.
    pub fn fits(&self) -> (ok: bool)
        ensures
            ok == image_fits(self@),
    {
        if self.size < 1 || self.size > ICO_MAX_SIZE {
            return false;
        }
        assert(4 * (self.size * self.size) <= 4 * (256 * 256)) by (nonlinear_arith)
            requires
                0 <= self.size <= 256,
        ;
        let bytes: u32 = 4 * (self.size * self.size);
        assert(bytes == rgba_len(self.size, self.size)) by (nonlinear_arith)
            requires
                bytes == 4 * (self.size * self.size),
        ;
        self.payload.len() == bytes as usize
    }
}

/// The images of a list of entries, in order.
pub open spec fn images_of(entries: Seq<ContainerEntry>) -> Seq<Image> {
    entries.map_values(|e: ContainerEntry| e@)
}

/// The text that reports an image that the container cannot embed.
pub open spec fn unfit_text(size: u32) -> Seq<char> {
    "Processing hiccup: Cannot embed "@ + decimal(size as nat) + "x"@ + decimal(size as nat)
        + " icon in ICO: the format holds images of 1 to 256 pixels with 4 bytes per pixel"@
}

/// The text that reports an image whose encoding failed.
pub open spec fn encode_text(size: u32) -> Seq<char> {
    "Processing hiccup: Cannot encode "@ + decimal(size as nat) + "x"@ + decimal(size as nat)
        + " icon for ICO"@
}

/// The text that reports a container that is full.
pub open spec fn full_text() -> Seq<char> {
    "Processing hiccup: Cannot embed more than 1024 icons in ICO"@
}

/// How the writer's outcome shows in the result: the file, or a write error
/// where the writer failed.
pub open spec fn file_outcome(written: Option<Seq<u8>>, r: Result<Vec<u8>, FavisError>) -> bool {
    match written {
        Some(file) => r matches Ok(bytes) && bytes@ == file,
        None => r matches Err(e) && e@ == failure(
            ErrorKind::WriteError,
            "Can't write to: Cannot write ICO file data"@,
            "Make sure the output directory exists and you have write permissions."@,
        ),
    }
}

/// Turns the writer's answer into the result of [`ContainerEncoder::finish`].
pub fn file_result(written: Result<Vec<u8>, std::io::Error>) -> (r: Result<Vec<u8>, FavisError>)
    ensures
        file_outcome(
            match written {
                Ok(file) => Some(file@),
                Err(_) => None,
            },
            r,
        ),
{
    match written {
        Ok(file) => Ok(file),
        Err(_) => {
            proof {
                reveal_strlit("Can't write to: Cannot write ICO file data");
                reveal_strlit("Can't write to: ");
                reveal_strlit("Cannot write ICO file data");
                assert("Can't write to: "@ + "Cannot write ICO file data"@
                    =~= "Can't write to: Cannot write ICO file data"@);
            }
            Err(FavisError::write_error("Cannot write ICO file data"))
        },
    }
}

/// Whether `image` can be added to a container that embeds `held`.
pub open spec fn addable(held: Seq<Image>, image: Image) -> bool {
    held.len() < MAX_CONTAINER_IMAGES && image_fits(image) && entry_encodes(image.0, image.1)
}

/// Why `image` cannot be added to a container that embeds `held`.
pub open spec fn refusal(held: Seq<Image>, image: Image) -> FavisErrorView {
    if !image_fits(image) {
        processing_failure(unfit_text(image.0))
    } else if held.len() >= MAX_CONTAINER_IMAGES {
        processing_failure(full_text())
    } else {
        processing_failure(encode_text(image.0))
    }
}

/// Whether every image of `images` can be added in turn to an empty
/// container.
pub open spec fn all_addable(images: Seq<Image>) -> bool {
    forall|i: int| 0 <= i < images.len() ==> addable(images.take(i), #[trigger] images[i])
}

fn sized_text(prefix: &str, size: u32, suffix: &str) -> (s: String)
    ensures
        s@ == prefix@ + decimal(size as nat) + "x"@ + decimal(size as nat) + suffix@,
{
    let digits = decimal_chars(size);
    let mut text = chars_of(prefix);
    append(&mut text, &digits);
    append_str(&mut text, "x");
    append(&mut text, &digits);
    append_str(&mut text, suffix);
    string_of(&text)
}

fn processing(prefix: &str, size: u32, suffix: &str) -> (e: FavisError)
    ensures
        e@ == processing_failure(
            "Processing hiccup: "@ + prefix@ + decimal(size as nat) + "x"@ + decimal(size as nat)
                + suffix@,
        ),
{
    let details = sized_text(prefix, size, suffix);
    let e = FavisError::processing_error(details.as_str());
    assert("Processing hiccup: "@ + details@ =~= "Processing hiccup: "@ + prefix@ + decimal(
        size as nat,
    ) + "x"@ + decimal(size as nat) + suffix@);
    e
}

/// Builds one container, image by image.
pub struct ContainerEncoder {
    dir: ico::IconDir,
    count: usize,
}

impl ContainerEncoder {
    #[verifier::type_invariant]
    spec fn well_formed(self) -> bool {
        &&& holds_encoded_icons(self.dir)
        &&& dir_images(self.dir).len() == self.count
        &&& self.count <= MAX_CONTAINER_IMAGES
        &&& all_fit(dir_images(self.dir))
    }

    /// The images embedded so far, oldest first.
    pub closed spec fn images(&self) -> Seq<Image> {
        dir_images(self.dir)
    }

    /// An empty container.
    pub fn new() -> (c: ContainerEncoder)
        ensures
            c.images() == Seq::<Image>::empty(),
    {
        ContainerEncoder { dir: new_dir(), count: 0 }
    }

    /// Embeds one more image, after those already there.
    ///
    /// Fails with a processing error if the image does not fit the format,
    /// if the container is full, or if the image cannot be encoded.
    pub fn add(self, entry: &ContainerEntry) -> (r: Result<ContainerEncoder, FavisError>)
        ensures
            match r {
                Ok(grown) => addable(self.images(), entry@) && grown.images()
                    == self.images().push(entry@),
                Err(e) => !addable(self.images(), entry@) && e@ == refusal(self.images(), entry@),
            },
    {
        proof {
            use_type_invariant(&self);
        }
        if !entry.fits() {
            proof {
                reveal_strlit("Cannot embed ");
                reveal_strlit("Processing hiccup: Cannot embed ");
                reveal_strlit("Processing hiccup: ");
                assert("Processing hiccup: "@ + "Cannot embed "@
                    =~= "Processing hiccup: Cannot embed "@);
            }
            return Err(
                processing(
                    "Cannot embed ",
                    entry.size,
                    " icon in ICO: the format holds images of 1 to 256 pixels with 4 bytes per pixel",
                ),
            );
        }
        if self.count >= MAX_CONTAINER_IMAGES {
            proof {
                reveal_strlit("Cannot embed more than 1024 icons in ICO");
                reveal_strlit("Processing hiccup: Cannot embed more than 1024 icons in ICO");
                reveal_strlit("Processing hiccup: ");
                assert("Processing hiccup: "@ + "Cannot embed more than 1024 icons in ICO"@
                    =~= "Processing hiccup: Cannot embed more than 1024 icons in ICO"@);
            }
            return Err(FavisError::processing_error("Cannot embed more than 1024 icons in ICO"));
        }
        let ContainerEncoder { mut dir, count } = self;
        match add_image(&mut dir, entry.size, &entry.payload) {
            Ok(_) => Ok(ContainerEncoder { dir, count: count + 1 }),
            Err(_) => {
                proof {
                    reveal_strlit("Cannot encode ");
                    reveal_strlit("Processing hiccup: Cannot encode ");
                    reveal_strlit("Processing hiccup: ");
                    assert("Processing hiccup: "@ + "Cannot encode "@
                        =~= "Processing hiccup: Cannot encode "@);
                }
                Err(processing("Cannot encode ", entry.size, " icon for ICO"))
            },
        }
    }

    /// Writes the container file.
    pub fn finish(&self) -> (r: Result<Vec<u8>, FavisError>)
        ensures
            file_outcome(ico_file(self.images()), r),
    {
        proof {
            use_type_invariant(self);
        }
        file_result(write_dir(&self.dir))
    }
}

/// What [`encode`] returns for the given images: the file if every image
/// can be added and the file can be written; otherwise the refusal of the
/// first image that cannot be added, or else the write error.
pub open spec fn encode_outcome(images: Seq<Image>, r: Result<Vec<u8>, FavisError>) -> bool {
    match r {
        Ok(file) => all_addable(images) && ico_file(images) == Some(file@),
        Err(e) => {
            ||| exists|k: int|
                0 <= k < images.len() && all_addable(images.take(k)) && !addable(
                    images.take(k),
                    #[trigger] images[k],
                ) && e@ == refusal(images.take(k), images[k])
            ||| all_addable(images) && file_outcome(ico_file(images), r) && ico_file(images) is None
        },
    }
}

/// Packs the entries into one multi-resolution container file, one embedded
/// image per entry, in the order supplied.
///
/// Fails with a processing error if an entry is larger than
/// [`ICO_MAX_SIZE`] pixels or otherwise unfit, if there are more than
/// [`MAX_CONTAINER_IMAGES`] entries, or if an image cannot be encoded.
pub fn encode(entries: &Vec<ContainerEntry>) -> (r: Result<Vec<u8>, FavisError>)
    ensures
        encode_outcome(images_of(entries@), r),
{
    let ghost images = images_of(entries@);
    let mut container = ContainerEncoder::new();
    let mut i: usize = 0;
    while i < entries.len()
        invariant
            i <= entries.len(),
            images == images_of(entries@),
            container.images() == images.take(i as int),
            all_addable(images.take(i as int)),
        decreases entries.len() - i,
    {
        proof {
            images.lemma_take_succ_push(i as int);
        }
        match container.add(&entries[i]) {
            Ok(grown) => {
                container = grown;
                assert forall|j: int| 0 <= j < images.take(i + 1).len() implies addable(
                    images.take(i + 1).take(j),
                    #[trigger] images.take(i + 1)[j],
                ) by {
                    assert(images.take(i + 1).take(j) == images.take(j));
                    if j < i {
                        assert(images.take(i as int).take(j) == images.take(j));
                        assert(addable(images.take(i as int).take(j), images.take(i as int)[j]));
                    }
                }
            },
            Err(e) => {
                return Err(e);
            },
        }
        i += 1;
    }
    assert(images.take(entries.len() as int) == images);
    container.finish()
}

} // verus!
