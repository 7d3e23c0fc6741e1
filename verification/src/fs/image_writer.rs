use vstd::prelude::*;
use vstd::string::{StrSliceExecFns, StringExecFns};

use crate::util::decimal::{decimal, decimal_text};

verus! {

/// Where the best specimens of a run are saved: the directory, and the
/// prefix of every file name.
#[derive(Debug)]
pub struct ImageWriter {
    output_directory: String,
    filename_prefix: String,
}

/// A run of zeros.
pub open spec fn zeros(count: nat) -> Seq<char> {
    Seq::new(count, |i: int| '0')
}

/// A number written in decimal, with zeros in front where it has fewer than
/// `width` digits.
pub open spec fn zero_padded(number: nat, width: nat) -> Seq<char> {
    let digits: Seq<char> = decimal(number);
    if digits.len() >= width {
        digits
    } else {
        zeros((width - digits.len()) as nat) + digits
    }
}

/// The name of the file for a generation: the prefix, the generation's number
/// in at least six digits, and the extension of a PNG file.
pub open spec fn file_name_of(prefix: Seq<char>, generation_number: u32) -> Seq<char> {
    prefix + zero_padded(generation_number as nat, 6) + seq!['.', 'p', 'n', 'g']
}

impl ImageWriter {
    pub closed spec fn spec_output_directory(&self) -> Seq<char> {
        self.output_directory@
    }

    pub closed spec fn spec_filename_prefix(&self) -> Seq<char> {
        self.filename_prefix@
    }

    pub fn new(output_directory: String, filename_prefix: String) -> (writer: Self)
        ensures
            writer.spec_output_directory() == output_directory@,
            writer.spec_filename_prefix() == filename_prefix@,
    {
        Self { output_directory, filename_prefix }
    }

    /// The directory that the files go to.
    pub fn output_directory(&self) -> (directory: &String)
        ensures
            directory@ == self.spec_output_directory(),
    {
        &self.output_directory
    }

    /// The prefix of every file name.
    pub fn filename_prefix(&self) -> (prefix: &String)
        ensures
            prefix@ == self.spec_filename_prefix(),
    {
        &self.filename_prefix
    }

    /// The name of the file that holds the best specimen of a generation.
    pub fn file_name(&self, current_generation_number: u32) -> (name: String)
        ensures
            name@ == file_name_of(self.spec_filename_prefix(), current_generation_number),
    {
        let digits: String = decimal_text(current_generation_number as u64);
        let mut name: String = self.filename_prefix.clone();
        let mut width: usize = digits.as_str().unicode_len();
        assert(name@ =~= self.filename_prefix@ + zeros(0));
        while width < 6
            invariant
                digits@.len() <= width,
                width <= 6 || width == digits@.len(),
                name@ == self.filename_prefix@ + zeros((width - digits@.len()) as nat),
            decreases 6 - width,
        {
            proof {
                reveal_strlit("0");
            }
            name.append("0");
            width += 1;
            assert(name@ =~= self.filename_prefix@ + zeros((width - digits@.len()) as nat));
        }
        name.append(digits.as_str());
        assert(name@ =~= self.filename_prefix@ + zero_padded(current_generation_number as nat, 6));
        proof {
            reveal_strlit(".png");
        }
        name.append(".png");
        assert(name@ =~= file_name_of(self.spec_filename_prefix(), current_generation_number));
        name
    }
}

} // verus!
