use derive_tokio_io::async_read::{expand_async_read, READ_MARKER};
use derive_tokio_io::async_write::{expand_async_write, WRITE_MARKER};
use derive_tokio_io::descriptor::{DeclKind, Field, StructDescriptor};
use derive_tokio_io::parse::DeriveError;
use std::str::FromStr;

fn named(name: &str, ty: &str, markers: &[&str]) -> Field {
    Field {
        name: Some(name.to_string()),
        ty: ty.to_string(),
        markers: markers.iter().map(|m| m.to_string()).collect(),
    }
}

fn unnamed(ty: &str, markers: &[&str]) -> Field {
    Field { name: None, ty: ty.to_string(), markers: markers.iter().map(|m| m.to_string()).collect() }
}

fn a_struct(name: &str, generics: &str, fields: Vec<Field>) -> StructDescriptor {
    StructDescriptor {
        kind: DeclKind::Struct,
        name: name.to_string(),
        generics: generics.to_string(),
        fields,
    }
}

/// The tokens of `code`, printed one by one.
fn tokens(code: &str) -> String {
    proc_macro2::TokenStream::from_str(code).unwrap().to_string()
}

/// The reading implementation written out by hand, with marks where the
/// parts of the struct go.
const READ_BY_HAND: &str = "
    #[automatically_derived]
    impl #generics ::tokio::io::AsyncRead for #ident #generics
    where
        #field_ty: ::tokio::io::AsyncRead,
    {
        fn poll_read(
            self: ::std::pin::Pin<&mut Self>,
            cx: &mut ::std::task::Context<'_>,
            buf: &mut ::tokio::io::ReadBuf<'_>,
        ) -> ::std::task::Poll<std::io::Result<()>> {
            unsafe {
                ::std::pin::Pin::new_unchecked(&mut self.get_unchecked_mut().#field_id).poll_read(cx, buf)
            }
        }
    }
";

/// The writing implementation written out by hand, with marks where the
/// parts of the struct go.
const WRITE_BY_HAND: &str = "
    #[automatically_derived]
    impl #generics ::tokio::io::AsyncWrite for #ident #generics
    where
        #field_ty: ::tokio::io::AsyncWrite,
    {
        fn poll_write(
            self: ::std::pin::Pin<&mut Self>,
            cx: &mut ::std::task::Context<'_>,
            buf: &[u8],
        ) -> ::std::task::Poll<::std::io::Result<usize>> {
            unsafe {
                ::std::pin::Pin::new_unchecked(&mut self.get_unchecked_mut().#field_id).poll_write(cx, buf)
            }
        }

        fn poll_flush(
            self: ::std::pin::Pin<&mut Self>,
            cx: &mut ::std::task::Context<'_>,
        ) -> ::std::task::Poll<::std::io::Result<()>> {
            unsafe { ::std::pin::Pin::new_unchecked(&mut self.get_unchecked_mut().#field_id).poll_flush(cx) }
        }

        fn poll_shutdown(
            self: ::std::pin::Pin<&mut Self>,
            cx: &mut ::std::task::Context<'_>
        ) -> ::std::task::Poll<::std::io::Result<()>> {
            unsafe { ::std::pin::Pin::new_unchecked(&mut self.get_unchecked_mut().#field_id).poll_shutdown(cx) }
        }
    }
";

fn by_hand(template: &str, generics: &str, ident: &str, field_id: &str, field_ty: &str) -> String {
    let filled = template
        .replace("#generics", &format!(" {} ", generics))
        .replace("#ident", &format!(" {} ", ident))
        .replace("#field_id", &format!(" {} ", field_id))
        .replace("#field_ty", &format!(" {} ", field_ty));
    tokens(&filled)
}

#[test]
fn marker_names() {
    assert_eq!(READ_MARKER, "async_read");
    assert_eq!(WRITE_MARKER, "async_write");
}

#[test]
fn read_text_for_a_single_named_field() {
    let d = a_struct("Wrapper", "< T >", vec![named("stream", "T", &[])]);
    assert_eq!(
        expand_async_read(&d),
        Ok("#[automatically_derived] impl < T > ::tokio::io::AsyncRead for Wrapper < T > where T : ::tokio::io::AsyncRead, { fn poll_read( self: ::std::pin::Pin<&mut Self>, cx: &mut ::std::task::Context<'_>, buf: &mut ::tokio::io::ReadBuf<'_>, ) -> ::std::task::Poll<std::io::Result<()>> { unsafe { ::std::pin::Pin::new_unchecked(&mut self.get_unchecked_mut() . stream ) . poll_read(cx, buf) } } }".to_string())
    );
}

#[test]
fn write_text_for_a_single_unnamed_field() {
    let d = a_struct("SimpleTuple", "", vec![unnamed("TcpStream", &[])]);
    assert_eq!(
        expand_async_write(&d),
        Ok("#[automatically_derived] impl  ::tokio::io::AsyncWrite for SimpleTuple  where TcpStream : ::tokio::io::AsyncWrite, { fn poll_write( self: ::std::pin::Pin<&mut Self>, cx: &mut ::std::task::Context<'_>, buf: &[u8], ) -> ::std::task::Poll<::std::io::Result<usize>> { unsafe { ::std::pin::Pin::new_unchecked(&mut self.get_unchecked_mut() . 0 ) . poll_write(cx, buf) } } fn poll_flush( self: ::std::pin::Pin<&mut Self>, cx: &mut ::std::task::Context<'_>, ) -> ::std::task::Poll<::std::io::Result<()>> { unsafe { ::std::pin::Pin::new_unchecked(&mut self.get_unchecked_mut() . 0 ) . poll_flush(cx) } } fn poll_shutdown( self: ::std::pin::Pin<&mut Self>, cx: &mut ::std::task::Context<'_> ) -> ::std::task::Poll<::std::io::Result<()>> { unsafe { ::std::pin::Pin::new_unchecked(&mut self.get_unchecked_mut() . 0 ) . poll_shutdown(cx) } } }".to_string())
    );
}

#[test]
fn single_named_field_is_projected_to_in_every_method() {
    let d = a_struct("Wrapper", "", vec![named("stream", "T", &[])]);
    let read = expand_async_read(&d).unwrap();
    let write = expand_async_write(&d).unwrap();
    assert_eq!(tokens(&read), by_hand(READ_BY_HAND, "", "Wrapper", "stream", "T"));
    assert_eq!(tokens(&write), by_hand(WRITE_BY_HAND, "", "Wrapper", "stream", "T"));
    assert_eq!(read.matches("get_unchecked_mut() . stream )").count(), 1);
    assert_eq!(write.matches("get_unchecked_mut() . stream )").count(), 3);
}

#[test]
fn single_unnamed_field_is_projected_to_by_position() {
    let d = a_struct("Wrapper", "", vec![unnamed("T", &[])]);
    let read = expand_async_read(&d).unwrap();
    let write = expand_async_write(&d).unwrap();
    assert_eq!(tokens(&read), by_hand(READ_BY_HAND, "", "Wrapper", "0", "T"));
    assert_eq!(tokens(&write), by_hand(WRITE_BY_HAND, "", "Wrapper", "0", "T"));
    assert_eq!(read.matches("get_unchecked_mut() . 0 )").count(), 1);
    assert_eq!(write.matches("get_unchecked_mut() . 0 )").count(), 3);
}

#[test]
fn reader_and_writer_get_their_own_implementations() {
    let d = a_struct(
        "Wrapper",
        "< R , W >",
        vec![named("reader", "R", &["async_read"]), named("writer", "W", &["async_write"])],
    );
    let read = expand_async_read(&d).unwrap();
    let write = expand_async_write(&d).unwrap();
    assert_eq!(tokens(&read), by_hand(READ_BY_HAND, "< R , W >", "Wrapper", "reader", "R"));
    assert_eq!(tokens(&write), by_hand(WRITE_BY_HAND, "< R , W >", "Wrapper", "writer", "W"));
    assert!(!read.contains("writer"));
    assert!(!write.contains("reader"));
}

#[test]
fn unmarked_pair_fails_for_reading_and_for_writing() {
    let d = a_struct("Pair", "", vec![named("a", "A", &[]), named("b", "B", &[])]);
    assert_eq!(expand_async_read(&d), Err(DeriveError::MissingMarker));
    assert_eq!(expand_async_write(&d), Err(DeriveError::MissingMarker));
}

#[test]
fn doubly_marked_pair_fails_at_the_second_field() {
    let d = a_struct(
        "Pair",
        "",
        vec![named("a", "A", &["async_read"]), named("b", "B", &["async_read"])],
    );
    assert_eq!(expand_async_read(&d), Err(DeriveError::DuplicateMarker { field: 1, marker: 0 }));
    assert_eq!(expand_async_write(&d), Err(DeriveError::MissingMarker));
}

#[test]
fn generators_refuse_what_is_no_struct_or_has_no_field() {
    let mut d = a_struct("Empty", "", vec![]);
    assert_eq!(expand_async_read(&d), Err(DeriveError::NoFields));
    assert_eq!(expand_async_write(&d), Err(DeriveError::NoFields));
    d.kind = DeclKind::Enum;
    assert_eq!(expand_async_read(&d), Err(DeriveError::NotAStruct));
    d.kind = DeclKind::Union;
    assert_eq!(expand_async_write(&d), Err(DeriveError::NotAStruct));
}

#[test]
fn generics_stand_after_impl_and_after_the_name() {
    let generics = "< 'a , T : 'a + Send , const N : usize >";
    let d = a_struct("Framed", generics, vec![named("io", "& 'a mut T", &[])]);
    let read = expand_async_read(&d).unwrap();
    let write = expand_async_write(&d).unwrap();
    assert!(read.starts_with(&format!(
        "#[automatically_derived] impl {} ::tokio::io::AsyncRead for Framed {} where ",
        generics, generics
    )));
    assert!(write.starts_with(&format!(
        "#[automatically_derived] impl {} ::tokio::io::AsyncWrite for Framed {} where ",
        generics, generics
    )));
    assert_eq!(read.matches(generics).count(), 2);
    assert_eq!(write.matches(generics).count(), 2);
}

#[test]
fn generated_read_text_is_an_impl_with_one_method() {
    let d = a_struct(
        "Wrapper",
        "< R , W >",
        vec![unnamed("R", &["async_read"]), unnamed("Vec < W >", &["async_write"])],
    );
    let item: syn::ItemImpl = syn::parse_str(&expand_async_read(&d).unwrap()).unwrap();
    assert_eq!(item.items.len(), 1);
    assert_eq!(item.generics.params.len(), 2);
    assert!(item.unsafety.is_none());
    let (_, path, _) = item.trait_.unwrap();
    assert_eq!(path.segments.last().unwrap().ident.to_string(), "AsyncRead");
    match &item.items[0] {
        syn::ImplItem::Method(method) => assert_eq!(method.sig.ident.to_string(), "poll_read"),
        _ => panic!("not a method"),
    }
}

#[test]
fn generated_write_text_is_an_impl_with_three_methods() {
    let d = a_struct(
        "Wrapper",
        "< R , W >",
        vec![unnamed("R", &["async_read"]), unnamed("Vec < W >", &["async_write"])],
    );
    let item: syn::ItemImpl = syn::parse_str(&expand_async_write(&d).unwrap()).unwrap();
    let names: Vec<String> = item
        .items
        .iter()
        .map(|i| match i {
            syn::ImplItem::Method(method) => method.sig.ident.to_string(),
            _ => panic!("not a method"),
        })
        .collect();
    assert_eq!(names, vec!["poll_write", "poll_flush", "poll_shutdown"]);
    let bound = item.generics.where_clause.unwrap();
    assert_eq!(bound.predicates.len(), 1);
    assert_eq!(
        quote::ToTokens::to_token_stream(&bound.predicates[0]).to_string(),
        "Vec < W > : :: tokio :: io :: AsyncWrite"
    );
}
