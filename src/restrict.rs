use vstd::prelude::*;
use std::marker::PhantomData;
use crate::permissions::{UserWithPermissions, VfsOperations};
use crate::policy::{Operation, is_permitted, is_guarded, permits};

verus! {

#[verifier::external_type_specification]
#[verifier::external_body]
pub struct ExStorageError(libunftp::storage::Error);

#[verifier::external_type_specification]
pub struct ExStorageErrorKind(libunftp::storage::ErrorKind);

#[verifier::external_type_specification]
#[verifier::external_body]
pub struct ExIoError(std::io::Error);

#[verifier::external_type_specification]
pub struct ExIoErrorKind(std::io::ErrorKind);

/// The storage error that libunftp builds from an error kind alone.
pub uninterp spec fn storage_error_from(kind: libunftp::storage::ErrorKind) -> libunftp::storage::Error;

/// The I/O error that std builds from an error kind alone.
pub uninterp spec fn io_error_from(kind: std::io::ErrorKind) -> std::io::Error;

/// Relies on libunftp's `From<ErrorKind> for storage::Error`, which builds
/// an error of that kind with no source.
#[verifier::external_body]
fn storage_error(kind: libunftp::storage::ErrorKind) -> (r: libunftp::storage::Error)
    ensures
        r == storage_error_from(kind),
{
    libunftp::storage::Error::from(kind)
}

/// Relies on std's `From<ErrorKind> for io::Error`, which builds an error of
/// that kind with no payload.
#[verifier::external_body]
fn io_error(kind: std::io::ErrorKind) -> (r: std::io::Error)
    ensures
        r == io_error_from(kind),
{
    std::io::Error::from(kind)
}

/// The error of a denied operation.
pub open spec fn denied() -> libunftp::storage::Error {
    storage_error_from(libunftp::storage::ErrorKind::PermissionDenied)
}

/// The error of a denied operation whose results carry I/O errors.
pub open spec fn io_denied() -> std::io::Error {
    io_error_from(std::io::ErrorKind::PermissionDenied)
}

/// A storage back-end that checks that the user may perform an operation
/// before it hands the operation on to the back-end that it wraps.
#[derive(Debug)]
pub struct RestrictingVfs<Delegate, User, Meta> {
    delegate: Delegate,
    x: PhantomData<Meta>,
    y: PhantomData<User>,
}

impl<Delegate, User, Meta> RestrictingVfs<Delegate, User, Meta> {
    /// The wrapped back-end.
    pub closed spec fn spec_delegate(&self) -> Delegate {
        self.delegate
    }

    /// Wraps `delegate`.
    pub fn new(delegate: Delegate) -> (r: Self)
        ensures
            r.spec_delegate() == delegate,
    {
        RestrictingVfs { delegate, x: PhantomData, y: PhantomData }
    }

    /// The wrapped back-end.
    pub fn delegate(&self) -> (r: &Delegate)
        ensures
            *r == self.spec_delegate(),
    {
        &self.delegate
    }

    /// Hands `op` on to the wrapped back-end through `forward` when the set
    /// `perms` allows it, and returns what `forward` returned; otherwise
    /// returns a permission-denied error and does not call `forward`, which
    /// need not even be callable then.
    pub fn guard_with<'a, T, F: FnOnce(&'a Delegate) -> T>(
        &'a self,
        perms: VfsOperations,
        op: Operation,
        forward: F,
    ) -> (r: Result<T, libunftp::storage::Error>)
        requires
            permits(perms, op) ==> forward.requires((&self.spec_delegate(),)),
        ensures
            r is Ok <==> permits(perms, op),
            r matches Ok(v) ==> forward.ensures((&self.spec_delegate(),), v),
            r matches Err(e) ==> e == denied(),
    {
        if is_permitted(perms, op) {
            Ok(forward(&self.delegate))
        } else {
            Err(storage_error(libunftp::storage::ErrorKind::PermissionDenied))
        }
    }

    /// As `guard_with`, for an operation whose results carry I/O errors.
    pub fn guard_io_with<'a, T, F: FnOnce(&'a Delegate) -> T>(
        &'a self,
        perms: VfsOperations,
        op: Operation,
        forward: F,
    ) -> (r: Result<T, std::io::Error>)
        requires
            permits(perms, op) ==> forward.requires((&self.spec_delegate(),)),
        ensures
            r is Ok <==> permits(perms, op),
            r matches Ok(v) ==> forward.ensures((&self.spec_delegate(),), v),
            r matches Err(e) ==> e == io_denied(),
    {
        if is_permitted(perms, op) {
            Ok(forward(&self.delegate))
        } else {
            Err(io_error(std::io::ErrorKind::PermissionDenied))
        }
    }

}

impl<Delegate, User: UserWithPermissions, Meta> RestrictingVfs<Delegate, User, Meta> {
    /// Hands `op` on to the wrapped back-end through `forward` when the
    /// user's permissions, read once, allow it; otherwise returns a
    /// permission-denied error and does not call `forward`, which need not
    /// even be callable then. An operation that needs no permission is always
    /// handed on.
    pub fn guard<'a, T, F: FnOnce(&'a Delegate) -> T>(
        &'a self,
        user: &User,
        op: Operation,
        forward: F,
    ) -> (r: Result<T, libunftp::storage::Error>)
        requires
            permits(user.spec_permissions(), op) ==> forward.requires((&self.spec_delegate(),)),
        ensures
            r is Ok <==> permits(user.spec_permissions(), op),
            !is_guarded(op) ==> r is Ok,
            r matches Ok(v) ==> forward.ensures((&self.spec_delegate(),), v),
            r matches Err(e) ==> e == denied(),
    {
        self.guard_with(user.permissions(), op, forward)
    }

    /// As `guard`, for an operation whose results carry I/O errors.
    pub fn guard_io<'a, T, F: FnOnce(&'a Delegate) -> T>(
        &'a self,
        user: &User,
        op: Operation,
        forward: F,
    ) -> (r: Result<T, std::io::Error>)
        requires
            permits(user.spec_permissions(), op) ==> forward.requires((&self.spec_delegate(),)),
        ensures
            r is Ok <==> permits(user.spec_permissions(), op),
            !is_guarded(op) ==> r is Ok,
            r matches Ok(v) ==> forward.ensures((&self.spec_delegate(),), v),
            r matches Err(e) ==> e == io_denied(),
    {
        self.guard_io_with(user.permissions(), op, forward)
    }
}

} // verus!
