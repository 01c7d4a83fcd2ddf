//! The implementation of `tokio::io::AsyncRead` that forwards to a field.

use crate::descriptor::{DescriptorView, StructDescriptor};
use crate::parse::{parse_derive_input, parse_outcome, DeriveError, ParsedView};
use crate::text::{forward, forward_text, impl_block, impl_block_text};
use vstd::prelude::*;

verus! {

/// The attribute that marks the field to read from.
pub const READ_MARKER: &'static str = "async_read";

/// The one method of the trait: `poll_read`, handed on to the field
/// `field_id` with the same context and buffer, its result returned as it is.
pub open spec fn read_methods_text(field_id: Seq<char>) -> Seq<char> {
    "fn poll_read( self: ::std::pin::Pin<&mut Self>, cx: &mut ::std::task::Context<'_>, buf: &mut ::tokio::io::ReadBuf<'_>, ) -> ::std::task::Poll<std::io::Result<()>> { "@
        + forward_text(field_id, "poll_read(cx, buf)"@) + " }"@
}

/// The implementation of `tokio::io::AsyncRead` for the struct that `p` was
/// taken from.
pub open spec fn read_impl_text(p: ParsedView) -> Seq<char> {
    impl_block_text(
        p.generics,
        p.ident,
        p.field_ty,
        "::tokio::io::AsyncRead"@,
        read_methods_text(p.field_id),
    )
}

/// The outcome of [`expand_async_read`].
pub open spec fn read_outcome(d: DescriptorView) -> Result<Seq<char>, DeriveError> {
    match parse_outcome(d, READ_MARKER@) {
        Ok(p) => Ok(read_impl_text(p)),
        Err(e) => Err(e),
    }
}

/// Generates the implementation of `tokio::io::AsyncRead` for `input`, as
/// source text. It forwards `poll_read` to the field that
/// [`parse_derive_input`] picks for the attribute `async_read`, and fails
/// where that fails.
pub fn expand_async_read(input: &StructDescriptor) -> (r: Result<String, DeriveError>)
    ensures
        match r {
            Ok(code) => read_outcome(input@) == Ok::<Seq<char>, DeriveError>(code@),
            Err(e) => read_outcome(input@) == Err::<Seq<char>, DeriveError>(e),
        },
{
    let data = match parse_derive_input(input, READ_MARKER) {
        Ok(data) => data,
        Err(e) => {
            return Err(e);
        },
    };
    let mut methods = String::from_str(
        "fn poll_read( self: ::std::pin::Pin<&mut Self>, cx: &mut ::std::task::Context<'_>, buf: &mut ::tokio::io::ReadBuf<'_>, ) -> ::std::task::Poll<std::io::Result<()>> { ",
    );
    methods.append(forward(data.field_id.as_str(), "poll_read(cx, buf)").as_str());
    methods.append(" }");
    Ok(
        impl_block(
            data.generics.as_str(),
            data.ident.as_str(),
            data.field_ty.as_str(),
            "::tokio::io::AsyncRead",
            methods.as_str(),
        ),
    )
}

} // verus!
