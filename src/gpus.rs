use vstd::prelude::*;

verus! {

/// Why a set of GPUs could not be picked.
#[derive(Clone, Copy, Debug, PartialEq, Eq, Structural)]
pub enum SelectError {
    /// No detected GPU matches the request.
    NotFound,
    /// One GPU was needed and none was selected.
    NoneSelected,
    /// One GPU was needed and several were selected.
    MultipleSelected,
}

/// The positions, among `count` detected GPUs, that are selected: all of them when
/// `wanted` is `None`, else those listed in `wanted`, in detection order.
pub open spec fn selected(count: nat, wanted: Option<Seq<usize>>) -> Seq<usize>
    decreases count,
{
    if count == 0 {
        Seq::empty()
    } else {
        let prev = selected((count - 1) as nat, wanted);
        let i = (count - 1) as usize;
        match wanted {
            None => prev.push(i),
            Some(w) => if w.contains(i) {
                prev.push(i)
            } else {
                prev
            },
        }
    }
}

/// Picks GPUs by position. Fails with `NotFound` when the selection is empty.
pub fn select_gpus(count: usize, wanted: Option<&Vec<usize>>) -> (r: Result<Vec<usize>, SelectError>)
    ensures
        match wanted {
            None => selected(count as nat, None),
            Some(w) => selected(count as nat, Some(w@)),
        }.len() == 0 <==> r is Err,
        r is Err ==> r == Err::<Vec<usize>, SelectError>(SelectError::NotFound),
        r matches Ok(v) ==> v@ == match wanted {
            None => selected(count as nat, None),
            Some(w) => selected(count as nat, Some(w@)),
        },
{
    let ghost ws: Option<Seq<usize>> = match wanted {
        None => None,
        Some(w) => Some(w@),
    };
    let mut out: Vec<usize> = Vec::new();
    let mut i: usize = 0;
    while i < count
        invariant
            i <= count,
            ws == match wanted {
                None => None,
                Some(w) => Some(w@),
            },
            out@ == selected(i as nat, ws),
        decreases count - i,
    {
        let take = match wanted {
            None => true,
            Some(w) => {
                let mut found = false;
                let mut k: usize = 0;
                while k < w.len()
                    invariant
                        k <= w@.len(),
                        found <==> exists|j: int| 0 <= j < k && w@[j] == i,
                    decreases w@.len() - k,
                {
                    if w[k] == i {
                        found = true;
                    }
                    k = k + 1;
                }
                found
            },
        };
        assert(take <==> match ws {
            None => true,
            Some(w) => w.contains(i),
        });
        if take {
            out.push(i);
        }
        i = i + 1;
    }
    if out.len() == 0 {
        Err(SelectError::NotFound)
    } else {
        Ok(out)
    }
}

/// The one selected GPU; fails when there is none or more than one.
pub fn single_gpu(selected: &Vec<usize>) -> (r: Result<usize, SelectError>)
    ensures
        selected@.len() == 0 ==> r == Err::<usize, SelectError>(SelectError::NoneSelected),
        selected@.len() > 1 ==> r == Err::<usize, SelectError>(SelectError::MultipleSelected),
        selected@.len() == 1 ==> r == Ok::<usize, SelectError>(selected@[0]),
{
    if selected.len() == 0 {
        Err(SelectError::NoneSelected)
    } else if selected.len() > 1 {
        Err(SelectError::MultipleSelected)
    } else {
        Ok(selected[0])
    }
}

impl SelectError {
    /// The message shown to the user.
    pub fn message(&self) -> (r: &'static str)
        ensures
            *self == SelectError::NoneSelected ==> r@ == "no GPU selected"@,
            *self == SelectError::MultipleSelected ==> r@ == "multiple GPUs selected"@,
            *self == SelectError::NotFound ==> r@ == "NVIDIA device not found"@,
    {
        match self {
            SelectError::NotFound => "NVIDIA device not found",
            SelectError::NoneSelected => "no GPU selected",
            SelectError::MultipleSelected => "multiple GPUs selected",
        }
    }
}

} // verus!
