use vstd::prelude::*;
use crate::error::BuildError;
use crate::field::attached;
use crate::ident::Ident;
use crate::metadata::Metadata;
use crate::value::SingleModel;

verus! {

/// What an RPC method holds.
pub struct RpcMethodModel {
    pub name: Seq<char>,
    pub request_type: Seq<char>,
    pub response_type: Seq<char>,
    pub metadata: Option<Map<Seq<char>, Option<SingleModel>>>,
}

/// One endpoint of a service: its name and, by name, the table it takes and
/// the table it answers with.
#[derive(Debug, PartialEq)]
pub struct RpcMethod<'a> {
    pub(crate) name: Ident<'a>,
    pub(crate) request_type: Ident<'a>,
    pub(crate) response_type: Ident<'a>,
    pub(crate) metadata: Option<Metadata<'a>>,
}

impl<'a> View for RpcMethod<'a> {
    type V = RpcMethodModel;

    open(crate) spec fn view(&self) -> RpcMethodModel {
        RpcMethodModel {
            name: self.name@,
            request_type: self.request_type@,
            response_type: self.response_type@,
            metadata: attached(self.metadata),
        }
    }
}

impl<'a> RpcMethod<'a> {
    /// The method `name` from `request_type` to `response_type`, with no
    /// attributes.
    pub fn new(
        name: Ident<'a>,
        request_type: Ident<'a>,
        response_type: Ident<'a>,
    ) -> (made: RpcMethod<'a>)
        ensures
            made@ == (RpcMethodModel {
                name: name@,
                request_type: request_type@,
                response_type: response_type@,
                metadata: None,
            }),
    {
        RpcMethod { name, request_type, response_type, metadata: None }
    }

    /// This method with `metadata` in the place of its attributes.
    pub fn with_metadata(self, metadata: Option<Metadata<'a>>) -> (made: RpcMethod<'a>)
        ensures
            made@ == (RpcMethodModel { metadata: attached(metadata), ..self@ }),
    {
        RpcMethod {
            name: self.name,
            request_type: self.request_type,
            response_type: self.response_type,
            metadata,
        }
    }

    /// The method's name.
    pub fn name(&self) -> (name: Ident<'a>)
        ensures
            name@ == self@.name,
    {
        self.name
    }

    /// The name of the table that the method takes.
    pub fn request_type(&self) -> (request_type: Ident<'a>)
        ensures
            request_type@ == self@.request_type,
    {
        self.request_type
    }

    /// The name of the table that the method answers with.
    pub fn response_type(&self) -> (response_type: Ident<'a>)
        ensures
            response_type@ == self@.response_type,
    {
        self.response_type
    }

    /// The attributes, if there are any.
    pub fn metadata(&self) -> (metadata: Option<&Metadata<'a>>)
        ensures
            match metadata {
                Some(m) => self@.metadata == Some(m@),
                None => self@.metadata is None,
            },
    {
        self.metadata.as_ref()
    }
}

impl<'a> Clone for RpcMethod<'a> {
    fn clone(&self) -> (copy: RpcMethod<'a>)
        ensures
            copy@ == self@,
    {
        RpcMethod {
            name: self.name,
            request_type: self.request_type,
            response_type: self.response_type,
            metadata: self.metadata.clone(),
        }
    }
}

/// What the methods of a run hold, one for one.
pub open spec fn method_models<'a>(methods: Seq<RpcMethod<'a>>) -> Seq<RpcMethodModel> {
    Seq::new(methods.len(), |i: int| methods[i]@)
}

/// What a service holds.
pub struct RpcModel {
    pub name: Seq<char>,
    pub methods: Seq<RpcMethodModel>,
}

/// An RPC service: a name and one method or more, in the order of
/// declaration.
#[derive(Debug, PartialEq)]
pub struct Rpc<'a> {
    pub(crate) name: Ident<'a>,
    pub(crate) methods: Vec<RpcMethod<'a>>,
}

impl<'a> View for Rpc<'a> {
    type V = RpcModel;

    open(crate) spec fn view(&self) -> RpcModel {
        RpcModel { name: self.name@, methods: method_models(self.methods@) }
    }
}

impl<'a> Rpc<'a> {
    #[verifier::type_invariant]
    spec fn has_methods(self) -> bool {
        self.methods@.len() > 0
    }

    /// The service called `name` with the given methods. A service without
    /// methods is refused.
    pub fn new(name: Ident<'a>, methods: Vec<RpcMethod<'a>>) -> (made: Result<Rpc<'a>, BuildError>)
        ensures
            methods@.len() == 0 <==> made == Err::<Rpc<'a>, BuildError>(BuildError::EmptyMethods),
            methods@.len() > 0 <==> made.is_ok(),
            made.is_ok() ==> made.unwrap()@ == (RpcModel {
                name: name@,
                methods: method_models(methods@),
            }),
    {
        if methods.len() == 0 {
            Err(BuildError::EmptyMethods)
        } else {
            Ok(Rpc { name, methods })
        }
    }

    /// The service's name.
    pub fn name(&self) -> (name: Ident<'a>)
        ensures
            name@ == self@.name,
    {
        self.name
    }

    /// The methods, in the order of declaration: one at least.
    pub fn methods(&self) -> (methods: &Vec<RpcMethod<'a>>)
        ensures
            methods@.len() > 0,
            method_models(methods@) == self@.methods,
    {
        proof {
            use_type_invariant(self);
        }
        &self.methods
    }
}

impl<'a> Clone for Rpc<'a> {
    fn clone(&self) -> (copy: Rpc<'a>)
        ensures
            copy@ == self@,
    {
        proof {
            use_type_invariant(self);
        }
        let methods = self.methods.clone();
        assert(method_models(methods@) =~= method_models(self.methods@));
        Rpc { name: self.name, methods }
    }
}

} // verus!
