//! A hook setting a custom file name on the testcases it sees.
use core::marker::PhantomData;
use vstd::prelude::*;
use crate::corpus::testcase::{Testcase, TestcaseFilenameFormat};
use crate::error::Error;

verus! {

/// Generates a custom file name for a testcase, given the state.
pub trait FilenameGenerator<I, S>: Sized {
    /// Whether naming `testcase` in `state` can end in `r`, leaving the
    /// generator as `after`, the state as `state_after` and the testcase as
    /// `testcase_after`.
    spec fn spec_set_name(
        &self,
        state: S,
        testcase: Testcase<I>,
        r: Result<String, Error>,
        after: Self,
        state_after: S,
        testcase_after: Testcase<I>,
    ) -> bool;

    /// The name for the testcase.
    fn set_name(&mut self, state: &mut S, testcase: &mut Testcase<I>) -> (r: Result<String, Error>)
        ensures
            old(self).spec_set_name(
                *old(state),
                *old(testcase),
                r,
                *final(self),
                *final(state),
                *final(testcase),
            ),
    ;
}

/// Sets a custom file name on the testcases, using a generator.
#[derive(Debug)]
pub struct CustomNameHook<I, G, S> {
    name_generator: G,
    phantom: PhantomData<(I, S)>,
}

impl<I, G, S> CustomNameHook<I, G, S> {
    /// The generator of names.
    pub closed spec fn spec_generator(&self) -> G {
        self.name_generator
    }

    /// Create a new [`CustomNameHook`].
    pub fn new(generator: G) -> (r: Self)
        ensures
            r.spec_generator() == generator,
    {
        CustomNameHook { name_generator: generator, phantom: PhantomData }
    }
}

impl<I, G: FilenameGenerator<I, S>, S> CustomNameHook<I, G, S> {
    /// The file name format of a testcase about to be added: the name the
    /// generator gives it; the generator's error when it fails.
    pub fn pre_add(&mut self, state: &mut S, testcase: &mut Testcase<I>) -> (r: Result<TestcaseFilenameFormat, Error>)
        ensures
            exists|named: Result<String, Error>|
                {
                    &&& #[trigger] old(self).spec_generator().spec_set_name(
                        *old(state),
                        *old(testcase),
                        named,
                        final(self).spec_generator(),
                        *final(state),
                        *final(testcase),
                    )
                    &&& match named {
                        Ok(name) => r == Ok::<TestcaseFilenameFormat, Error>(
                            TestcaseFilenameFormat::Custom(name),
                        ),
                        Err(e) => r == Err::<TestcaseFilenameFormat, Error>(e),
                    }
                },
    {
        let named = self.name_generator.set_name(state, testcase);
        assert(old(self).spec_generator().spec_set_name(
            *old(state),
            *old(testcase),
            named,
            self.spec_generator(),
            *state,
            *testcase,
        ));
        match named {
            Ok(name) => Ok(TestcaseFilenameFormat::Custom(name)),
            Err(e) => Err(e),
        }
    }
}

} // verus!
