//! The edit request: uploaded images, an optional prompt and an optional
//! provider identifier, with the default prompt and the defaulting rules
//! for both optional fields.

use vstd::prelude::*;
use vstd::string::*;

use crate::text::{trim_chars, trim_str};

verus! {

/// The decimal digit character for a value below ten.
pub open spec fn dec_digit_char(d: nat) -> char {
    if d == 0 {
        '0'
    } else if d == 1 {
        '1'
    } else if d == 2 {
        '2'
    } else if d == 3 {
        '3'
    } else if d == 4 {
        '4'
    } else if d == 5 {
        '5'
    } else if d == 6 {
        '6'
    } else if d == 7 {
        '7'
    } else if d == 8 {
        '8'
    } else {
        '9'
    }
}

/// The decimal rendering of a number.
pub open spec fn spec_dec(n: nat) -> Seq<char>
    decreases n,
{
    if n < 10 {
        seq![dec_digit_char(n)]
    } else {
        spec_dec(n / 10).push(dec_digit_char(n % 10))
    }
}

fn digit_str(d: usize) -> (r: &'static str)
    requires
        d < 10,
    ensures
        r@ == seq![dec_digit_char(d as nat)],
{
    proof {
        reveal_strlit("0");
        reveal_strlit("1");
        reveal_strlit("2");
        reveal_strlit("3");
        reveal_strlit("4");
        reveal_strlit("5");
        reveal_strlit("6");
        reveal_strlit("7");
        reveal_strlit("8");
        reveal_strlit("9");
    }
    let r = match d {
        0 => "0",
        1 => "1",
        2 => "2",
        3 => "3",
        4 => "4",
        5 => "5",
        6 => "6",
        7 => "7",
        8 => "8",
        _ => "9",
    };
    proof {
        assert(r@ =~= seq![dec_digit_char(d as nat)]);
    }
    r
}

/// Render a number in decimal.
pub fn usize_to_string(n: usize) -> (r: String)
    ensures
        r@ == spec_dec(n as nat),
    decreases n,
{
    if n < 10 {
        String::from_str(digit_str(n))
    } else {
        assert(n / 10 < n) by (nonlinear_arith)
            requires
                n >= 10,
        ;
        let prefix = usize_to_string(n / 10);
        let r = prefix.concat(digit_str(n % 10));
        proof {
            assert(r@ =~= spec_dec((n / 10) as nat).push(dec_digit_char((n % 10) as nat)));
        }
        r
    }
}

/// The prompt used when a request carries none.
pub open spec fn default_prompt_text() -> Seq<char> {
    "Stage this room with minimalist modern furniture in neutral tones. Preserve architecture and lighting; add realistic shadows and reflections."@
}

/// A decoded edit request: the uploaded images in arrival order, and the
/// optional prompt and provider fields.
#[derive(Debug)]
pub struct EditImageRequest {
    /// Uploaded image files; at least one is required for a valid request.
    pub images: Vec<Vec<u8>>,
    /// Prompt text; the default prompt stands in when this is absent or
    /// blank.
    pub prompt: Option<String>,
    /// Provider identifier; the default provider stands in when this is
    /// absent or blank.
    pub provider: Option<String>,
}

impl EditImageRequest {
    /// A request carrying only images.
    pub fn new(images: Vec<Vec<u8>>) -> (r: EditImageRequest)
        ensures
            r.images == images,
            r.prompt is None,
            r.provider is None,
    {
        EditImageRequest { images, prompt: None, provider: None }
    }

    /// A request with every field given.
    pub fn with_options(images: Vec<Vec<u8>>, prompt: Option<String>, provider: Option<String>)
        -> (r: EditImageRequest)
        ensures
            r.images == images,
            r.prompt == prompt,
            r.provider == provider,
    {
        EditImageRequest { images, prompt, provider }
    }

    /// The prompt used when none is provided.
    pub fn default_prompt() -> (r: &'static str)
        ensures
            r@ == default_prompt_text(),
    {
        "Stage this room with minimalist modern furniture in neutral tones. Preserve architecture and lighting; add realistic shadows and reflections."
    }

    /// The prompt in effect: the request's own, trimmed, unless that leaves
    /// nothing; the default prompt otherwise.
    pub open spec fn spec_prompt(&self) -> Seq<char> {
        match self.prompt {
            Some(p) => if trim_chars(p@).len() > 0 {
                trim_chars(p@)
            } else {
                default_prompt_text()
            },
            None => default_prompt_text(),
        }
    }

    /// The provider identifier in effect: the request's own, trimmed, unless
    /// that leaves nothing; the default provider otherwise.
    pub open spec fn spec_provider(&self) -> Seq<char> {
        match self.provider {
            Some(p) => if trim_chars(p@).len() > 0 {
                trim_chars(p@)
            } else {
                "google"@
            },
            None => "google"@,
        }
    }

    /// The prompt to use, falling back to the default.
    pub fn get_prompt(&self) -> (r: String)
        ensures
            r@ == self.spec_prompt(),
    {
        match &self.prompt {
            Some(p) => {
                let t = trim_str(p.as_str());
                if t.as_str().is_empty() {
                    String::from_str(Self::default_prompt())
                } else {
                    t
                }
            },
            None => String::from_str(Self::default_prompt()),
        }
    }

    /// The provider identifier to use, falling back to the default.
    pub fn get_provider(&self) -> (r: String)
        ensures
            r@ == self.spec_provider(),
    {
        match &self.provider {
            Some(p) => {
                let t = trim_str(p.as_str());
                if t.as_str().is_empty() {
                    String::from_str("google")
                } else {
                    t
                }
            },
            None => String::from_str("google"),
        }
    }

    /// Check the request: at least one image, and no image empty. The error
    /// names the first empty image.
    pub fn validate(&self) -> (r: Result<(), String>)
        ensures
            r is Ok <==> (self.images@.len() > 0 && forall|i: int|
                0 <= i < self.images@.len() ==> (#[trigger] self.images@[i])@.len() > 0),
            self.images@.len() == 0 ==> r is Err && r->Err_0@ == "At least one image is required"@,
            (self.images@.len() > 0 && exists|i: int|
                0 <= i < self.images@.len() && (#[trigger] self.images@[i])@.len() == 0) ==> r
                is Err && exists|i: int|
                {
                    &&& 0 <= i < self.images@.len()
                    &&& (#[trigger] self.images@[i])@.len() == 0
                    &&& forall|j: int| 0 <= j < i ==> (#[trigger] self.images@[j])@.len() > 0
                    &&& r->Err_0@ == "Image "@ + spec_dec(i as nat) + " is empty"@
                },
    {
        if self.images.len() == 0 {
            return Err(String::from_str("At least one image is required"));
        }
        let mut i: usize = 0;
        while i < self.images.len()
            invariant
                0 <= i <= self.images@.len(),
                forall|j: int| 0 <= j < i ==> (#[trigger] self.images@[j])@.len() > 0,
            decreases self.images@.len() - i,
        {
            if self.images[i].len() == 0 {
                let msg = String::from_str("Image ").concat(usize_to_string(i).as_str()).concat(
                    " is empty",
                );
                return Err(msg);
            }
            i = i + 1;
        }
        Ok(())
    }
}

} // verus!
