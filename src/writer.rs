use vstd::prelude::*;
use crate::image::Image;

verus! {

/// Why an image could not be written.
#[derive(Clone, Copy, Debug, PartialEq, Eq, Structural)]
pub enum Error {
    MissingInput,
    MissingOutput,
    InvalidPath,
    SaveFailed,
}

/// An image file format that can encode an image of pixels `P` to a path.
pub trait Format<P> {
    fn save(&self, image: &Image<P>, path: &str) -> Result<(), Error>;

    fn get_name(&self) -> &'static str;
}

/// Gathers what writing an image needs: a format, the image and the output path.
pub struct Writer<'a, F, P> {
    format: F,
    image: Option<&'a Image<P>>,
    path: Option<String>,
}

impl<'a, F, P> Writer<'a, F, P> {
    pub closed spec fn spec_format(&self) -> F {
        self.format
    }

    /// The format the image is written in.
    pub fn format(&self) -> (r: &F)
        ensures
            *r == self.spec_format(),
    {
        &self.format
    }

    pub closed spec fn spec_image(&self) -> Option<&'a Image<P>> {
        self.image
    }

    pub closed spec fn spec_path(&self) -> Option<Seq<char>> {
        match self.path {
            Some(p) => Some(p@),
            None => None,
        }
    }

    /// A writer for `format` with neither input nor output set.
    pub fn new(format: F) -> (r: Self)
        ensures
            r.spec_format() == format,
            r.spec_image() is None,
            r.spec_path() is None,
    {
        Writer { format, image: None, path: None }
    }

    /// Sets the image to write; the rest stays.
    pub fn input(self, image: &'a Image<P>) -> (r: Self)
        ensures
            r.spec_format() == self.spec_format(),
            r.spec_image() == Some(image),
            r.spec_path() == self.spec_path(),
    {
        Writer { format: self.format, image: Some(image), path: self.path }
    }

    /// Sets the path to write to; the rest stays.
    pub fn output(self, path: String) -> (r: Self)
        ensures
            r.spec_format() == self.spec_format(),
            r.spec_image() == self.spec_image(),
            r.spec_path() == Some(path@),
    {
        Writer { format: self.format, image: self.image, path: Some(path) }
    }

    /// The image and the path to write, or the first of them that is missing.
    pub fn target(&self) -> (r: Result<(&'a Image<P>, &String), Error>)
        ensures
            self.spec_image() is None ==> r == Err::<(&'a Image<P>, &String), Error>(
                Error::MissingInput,
            ),
            self.spec_image() is Some && self.spec_path() is None ==> r == Err::<
                (&'a Image<P>, &String),
                Error,
            >(Error::MissingOutput),
            self.spec_image() is Some && self.spec_path() is Some ==> r is Ok && r->Ok_0.0
                == self.spec_image()->Some_0 && Some(r->Ok_0.1@) == self.spec_path(),
    {
        match self.image {
            None => Err(Error::MissingInput),
            Some(image) => match &self.path {
                None => Err(Error::MissingOutput),
                Some(path) => Ok((image, path)),
            },
        }
    }
}

} // verus!
