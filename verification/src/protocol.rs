//! The MCP protocol values that the tools answer with, from the `rmcp` crate:
//! the invalid-parameters error and tool results that carry one text block.

use vstd::prelude::*;
use rmcp::model::{CallToolResult, ContentBlock, ErrorData};

verus! {

/// `rmcp`'s JSON-RPC error value.
#[verifier::external_type_specification]
#[verifier::external_body]
pub struct ExErrorData(rmcp::model::ErrorData);

/// `rmcp`'s block of tool output.
#[verifier::external_type_specification]
#[verifier::external_body]
pub struct ExContentBlock(rmcp::model::ContentBlock);

/// `rmcp`'s result of a tool call.
#[verifier::external_type_specification]
#[verifier::external_body]
pub struct ExCallToolResult(rmcp::model::CallToolResult);

/// What `ErrorData::invalid_params(message, None)` returns.
pub uninterp spec fn invalid_params_error(message: Seq<char>) -> ErrorData;

/// What `ContentBlock::text(text)` returns.
pub uninterp spec fn text_block(text: Seq<char>) -> ContentBlock;

/// What `CallToolResult::success(content)` returns.
pub uninterp spec fn success_result(content: Seq<ContentBlock>) -> CallToolResult;

/// What `CallToolResult::error(content)` returns.
pub uninterp spec fn error_result(content: Seq<ContentBlock>) -> CallToolResult;

/// Calls `ErrorData::invalid_params` with no data. In `rmcp` it builds the
/// error with code -32602, the message and no data; here that value is only
/// named, as a function of the message.
#[verifier::external_body]
pub(crate) fn invalid_params(message: String) -> (e: ErrorData)
    ensures
        e == invalid_params_error(message@),
{
    ErrorData::invalid_params(message, None)
}

/// Calls `ContentBlock::text`. In `rmcp` it builds a text block with the text
/// and neither metadata nor annotations; here that value is only named.
#[verifier::external_body]
fn text_content(text: String) -> (c: ContentBlock)
    ensures
        c == text_block(text@),
{
    ContentBlock::text(text)
}

/// Calls `CallToolResult::success`. In `rmcp` it marks the result as complete,
/// not an error, with the content and nothing more; here that value is only
/// named.
#[verifier::external_body]
fn tool_success(content: Vec<ContentBlock>) -> (r: CallToolResult)
    ensures
        r == success_result(content@),
{
    CallToolResult::success(content)
}

/// Calls `CallToolResult::error`. In `rmcp` it marks the result as complete
/// and as an error, with the content and nothing more; here that value is only
/// named.
#[verifier::external_body]
fn tool_error(content: Vec<ContentBlock>) -> (r: CallToolResult)
    ensures
        r == error_result(content@),
{
    CallToolResult::error(content)
}

/// The answer to a tool call whose command ended with `outcome`: the text of a
/// completed command as a successful result, the text of a failed one as an
/// error result, each as a single text block.
pub open spec fn tool_result_spec(outcome: Result<Seq<char>, Seq<char>>) -> CallToolResult {
    match outcome {
        Ok(text) => success_result(seq![text_block(text)]),
        Err(text) => error_result(seq![text_block(text)]),
    }
}

/// The view of an outcome carrying strings.
pub open spec fn outcome_view(outcome: Result<String, String>) -> Result<Seq<char>, Seq<char>> {
    match outcome {
        Ok(t) => Ok(t@),
        Err(e) => Err(e@),
    }
}

/// Wraps the outcome of a command into a tool result.
pub fn tool_result(outcome: Result<String, String>) -> (r: CallToolResult)
    ensures
        r == tool_result_spec(outcome_view(outcome)),
{
    let mut content: Vec<ContentBlock> = Vec::new();
    match outcome {
        Ok(text) => {
            content.push(text_content(text));
            assert(content@ =~= seq![text_block(outcome_view(outcome)->Ok_0)]);
            tool_success(content)
        },
        Err(text) => {
            content.push(text_content(text));
            assert(content@ =~= seq![text_block(outcome_view(outcome)->Err_0)]);
            tool_error(content)
        },
    }
}

} // verus!
