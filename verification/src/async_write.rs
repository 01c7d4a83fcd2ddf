//! The implementation of `tokio::io::AsyncWrite` that forwards to a field.

use crate::descriptor::{DescriptorView, StructDescriptor};
use crate::parse::{parse_derive_input, parse_outcome, DeriveError, ParsedView};
use crate::text::{forward, forward_text, impl_block, impl_block_text};
use vstd::prelude::*;

verus! {

/// The attribute that marks the field to write to.
pub const WRITE_MARKER: &'static str = "async_write";

/// The three methods of the trait: `poll_write`, `poll_flush` and
/// `poll_shutdown`, each handed on to the same field `field_id` with the same
/// arguments, its result returned as it is.
pub open spec fn write_methods_text(field_id: Seq<char>) -> Seq<char> {
    "fn poll_write( self: ::std::pin::Pin<&mut Self>, cx: &mut ::std::task::Context<'_>, buf: &[u8], ) -> ::std::task::Poll<::std::io::Result<usize>> { "@
        + forward_text(field_id, "poll_write(cx, buf)"@)
        + " } fn poll_flush( self: ::std::pin::Pin<&mut Self>, cx: &mut ::std::task::Context<'_>, ) -> ::std::task::Poll<::std::io::Result<()>> { "@
        + forward_text(field_id, "poll_flush(cx)"@)
        + " } fn poll_shutdown( self: ::std::pin::Pin<&mut Self>, cx: &mut ::std::task::Context<'_> ) -> ::std::task::Poll<::std::io::Result<()>> { "@
        + forward_text(field_id, "poll_shutdown(cx)"@) + " }"@
}

/// The implementation of `tokio::io::AsyncWrite` for the struct that `p` was
/// taken from.
pub open spec fn write_impl_text(p: ParsedView) -> Seq<char> {
    impl_block_text(
        p.generics,
        p.ident,
        p.field_ty,
        "::tokio::io::AsyncWrite"@,
        write_methods_text(p.field_id),
    )
}

/// The outcome of [`expand_async_write`].
pub open spec fn write_outcome(d: DescriptorView) -> Result<Seq<char>, DeriveError> {
    match parse_outcome(d, WRITE_MARKER@) {
        Ok(p) => Ok(write_impl_text(p)),
        Err(e) => Err(e),
    }
}

/// Generates the implementation of `tokio::io::AsyncWrite` for `input`, as
/// source text. It forwards `poll_write`, `poll_flush` and `poll_shutdown` to
/// the field that [`parse_derive_input`] picks for the attribute
/// `async_write`, and fails where that fails.
pub fn expand_async_write(input: &StructDescriptor) -> (r: Result<String, DeriveError>)
    ensures
        match r {
            Ok(code) => write_outcome(input@) == Ok::<Seq<char>, DeriveError>(code@),
            Err(e) => write_outcome(input@) == Err::<Seq<char>, DeriveError>(e),
        },
{
    let data = match parse_derive_input(input, WRITE_MARKER) {
        Ok(data) => data,
        Err(e) => {
            return Err(e);
        },
    };
    let field_id = data.field_id.as_str();
    let mut methods = String::from_str(
        "fn poll_write( self: ::std::pin::Pin<&mut Self>, cx: &mut ::std::task::Context<'_>, buf: &[u8], ) -> ::std::task::Poll<::std::io::Result<usize>> { ",
    );
    methods.append(forward(field_id, "poll_write(cx, buf)").as_str());
    methods.append(
        " } fn poll_flush( self: ::std::pin::Pin<&mut Self>, cx: &mut ::std::task::Context<'_>, ) -> ::std::task::Poll<::std::io::Result<()>> { ",
    );
    methods.append(forward(field_id, "poll_flush(cx)").as_str());
    methods.append(
        " } fn poll_shutdown( self: ::std::pin::Pin<&mut Self>, cx: &mut ::std::task::Context<'_> ) -> ::std::task::Poll<::std::io::Result<()>> { ",
    );
    methods.append(forward(field_id, "poll_shutdown(cx)").as_str());
    methods.append(" }");
    Ok(
        impl_block(
            data.generics.as_str(),
            data.ident.as_str(),
            data.field_ty.as_str(),
            "::tokio::io::AsyncWrite",
            methods.as_str(),
        ),
    )
}

} // verus!
