use vstd::prelude::*;
use vstd::string::StringExecFns;

verus! {

/// A value with a Python literal form.
pub trait ToPyStr {
    /// The Python literal for the value.
    spec fn py_text(&self) -> Seq<char>;

    fn to_pystr(&self) -> (r: String)
        ensures
            r@ == self.py_text(),
    ;
}

impl ToPyStr for bool {
    open spec fn py_text(&self) -> Seq<char> {
        if *self {
            "True"@
        } else {
            "False"@
        }
    }

    fn to_pystr(&self) -> (r: String) {
        if *self {
            String::from_str("True")
        } else {
            String::from_str("False")
        }
    }
}

/// The items of a Python list literal, comma-separated, without brackets.
pub open spec fn py_items<T: ToPyStr>(xs: Seq<T>) -> Seq<char>
    decreases xs.len(),
{
    if xs.len() == 0 {
        Seq::empty()
    } else if xs.len() == 1 {
        xs[0].py_text()
    } else {
        py_items(xs.drop_last()) + ","@ + xs.last().py_text()
    }
}

/// The Python list literal holding `data` in order, such as `[True,False]`.
pub fn to_pyvec<T: ToPyStr>(data: &[T]) -> (r: String)
    ensures
        r@ == "["@ + py_items(data@) + "]"@,
{
    let mut s = String::new();
    let mut i: usize = 0;
    while i < data.len()
        invariant
            0 <= i <= data@.len(),
            s@ == py_items(data@.take(i as int)),
        decreases data@.len() - i,
    {
        if i > 0 {
            s.append(",");
        }
        let item = data[i].to_pystr();
        s.append(item.as_str());
        proof {
            let t = data@.take(i as int + 1);
            assert(t.drop_last() =~= data@.take(i as int));
            if i == 0 {
                assert(data@.take(0) =~= Seq::<T>::empty());
                assert(s@ =~= py_items(t));
            }
        }
        i = i + 1;
    }
    assert(data@.take(data@.len() as int) =~= data@);
    let mut r = String::from_str("[");
    r.append(s.as_str());
    r.append("]");
    r
}

} // verus!
