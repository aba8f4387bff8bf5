//! Capture state: an optional growable record buffer. The buffer is
//! `Some` exactly while recording is active; its presence is the
//! recording flag. The input audio callback appends every delivered
//! sample while recording and does nothing otherwise.

use vstd::prelude::*;

verus! {

#[derive(Debug)]
pub struct InputStreamState {
    pub record_buffer: Option<Vec<i32>>,
}

impl InputStreamState {
    /// Recording is active exactly while a record buffer is installed.
    pub open spec fn recording(self) -> bool {
        self.record_buffer is Some
    }

    /// Installs a fresh, empty record buffer, discarding any previous
    /// one.
    pub fn start_record(&mut self)
        ensures
            final(self).recording(),
            final(self).record_buffer.unwrap()@ == Seq::<i32>::empty(),
    {
        self.record_buffer = Some(Vec::new());
    }

    /// Takes the record buffer out, leaving the idle state behind:
    /// returns everything captured since `start_record`, or nothing if
    /// no recording was active.
    pub fn stop_record(&mut self) -> (r: Option<Vec<i32>>)
        ensures
            r == old(self).record_buffer,
            !final(self).recording(),
    {
        self.record_buffer.take()
    }

    /// The input audio callback's work: appends all delivered samples to
    /// the record buffer if one is installed, and is a no-op otherwise.
    pub fn process(&mut self, data: &Vec<i32>)
        ensures
            old(self).recording() ==> ({
                &&& final(self).recording()
                &&& final(self).record_buffer.unwrap()@ == old(self).record_buffer.unwrap()@
                    + data@
            }),
            !old(self).recording() ==> *final(self) == *old(self),
    {
        let taken: Option<Vec<i32>> = self.record_buffer.take();
        match taken {
            Some(mut buf) => {
                let n: usize = data.len();
                let mut i: usize = 0;
                while i < n
                    invariant
                        i <= n,
                        n == data@.len(),
                        buf@ == old(self).record_buffer.unwrap()@ + data@.take(i as int),
                    decreases n - i,
                {
                    buf.push(data[i]);
                    proof {
                        assert(data@.take(i + 1) =~= data@.take(i as int).push(data@[i as int]));
                    }
                    i = i + 1;
                }
                proof {
                    assert(data@.take(n as int) =~= data@);
                }
                self.record_buffer = Some(buf);
            },
            None => {
            },
        }
    }
}

impl Default for InputStreamState {
    /// Idle: no recording in progress.
    fn default() -> (r: InputStreamState)
        ensures
            !r.recording(),
    {
        InputStreamState { record_buffer: None }
    }
}

} // verus!
