use vstd::prelude::*;
use vstd::string::StringExecFns;

verus! {

/// The errors that the bot reports, each with its message.
#[derive(Debug)]
pub enum KickbotError {
    DiscordError(String),
    ScreenshotError(String),
    ApiError(String),
    IOError(String),
    ModelError(String),
    TesseractError(String),
    JsonError(String),
}

impl KickbotError {
    pub open spec fn spec_message(&self) -> Seq<char> {
        match self {
            KickbotError::DiscordError(m) => "[Discord Error] "@ + m@,
            KickbotError::ScreenshotError(m) => "[Screenshot Error] "@ + m@,
            KickbotError::ApiError(m) => "[API Error] "@ + m@,
            KickbotError::IOError(m) => "[IO Error] "@ + m@,
            KickbotError::ModelError(m) => "[Model Error] "@ + m@,
            KickbotError::TesseractError(m) => "[Tesseract Error] "@ + m@,
            KickbotError::JsonError(m) => "[JSON Error] "@ + m@,
        }
    }

    /// The text shown for the error: its kind in brackets, then its detail.
    pub fn message(&self) -> (r: String)
        ensures
            r@ == self.spec_message(),
    {
        let (prefix, detail) = match self {
            KickbotError::DiscordError(m) => ("[Discord Error] ", m),
            KickbotError::ScreenshotError(m) => ("[Screenshot Error] ", m),
            KickbotError::ApiError(m) => ("[API Error] ", m),
            KickbotError::IOError(m) => ("[IO Error] ", m),
            KickbotError::ModelError(m) => ("[Model Error] ", m),
            KickbotError::TesseractError(m) => ("[Tesseract Error] ", m),
            KickbotError::JsonError(m) => ("[JSON Error] ", m),
        };
        let mut r = String::from_str(prefix);
        r.append(detail.as_str());
        r
    }
}

/// The error for a configuration field that is missing.
pub fn cant_find(field: &str) -> (r: KickbotError)
    ensures
        r matches KickbotError::JsonError(m) && m@ == "Couldn't find field "@ + field@,
{
    let mut m = String::from_str("Couldn't find field ");
    m.append(field);
    KickbotError::JsonError(m)
}

} // verus!
