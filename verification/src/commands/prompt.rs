//! Asking OpenAI for a text or an image.

use vstd::prelude::*;
use vstd::string::StringExecFns;

verus! {

/// The chat completion endpoint.
pub fn chat_endpoint() -> (r: String)
    ensures
        r@ == "https://api.openai.com/v1/chat/completions"@,
{
    String::from_str("https://api.openai.com/v1/chat/completions")
}

/// The image generation endpoint.
pub fn image_endpoint() -> (r: String)
    ensures
        r@ == "https://api.openai.com/v1/images/generations"@,
{
    String::from_str("https://api.openai.com/v1/images/generations")
}

/// The value of the authorization header for an API key.
pub fn bearer(api_key: &str) -> (r: String)
    ensures
        r@ == "Bearer "@ + api_key@,
{
    let mut r = String::from_str("Bearer ");
    r.append(api_key);
    r
}

/// The text shown for a chat answer: its content, or a notice when it has none.
pub fn chat_reply_text(content: Option<String>) -> (r: String)
    ensures
        r@ == match content {
            Some(c) => c@,
            None => "No response from GPT-4 Turbo"@,
        },
{
    match content {
        Some(c) => c,
        None => String::from_str("No response from GPT-4 Turbo"),
    }
}

/// The image shown for an image answer: its address, or a notice when it has none.
pub fn image_reply_url(url: Option<String>) -> (r: String)
    ensures
        r@ == match url {
            Some(u) => u@,
            None => "No response from DALL-E 3"@,
        },
{
    match url {
        Some(u) => u,
        None => String::from_str("No response from DALL-E 3"),
    }
}

/// The help text of the prompt command.
pub fn prompt_help() -> (r: String)
    ensures
        r@ == "Prompt OpenAI GPT-4 Turbo to generate a response"@,
{
    String::from_str("Prompt OpenAI GPT-4 Turbo to generate a response")
}

/// The help text of the image prompt command.
pub fn imageprompt_help() -> (r: String)
    ensures
        r@ == "Prompt OpenAI DALL-E 3 to generate an image"@,
{
    String::from_str("Prompt OpenAI DALL-E 3 to generate an image")
}

} // verus!
