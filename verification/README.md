# MinkaCap

Per-window Wayland capture: a window's own buffer as a PNG, occlusion-free, without raising the
window and without stealing the focus.

    MinkaCap list                          one "app_id<TAB>title" per line
    MinkaCap grab <selector> <out.png>     capture the matching window

The selector picks the first window whose app_id or title equals it; where there is none, the first
whose title or app_id contains it.

Exit codes: 1 usage or a file that cannot be created, 2 a protocol that the compositor lacks, 3 no
match, 4 session stopped before its constraints, 5 no usable shm format, 6 frame failed (or session
stopped after its constraints).

`src/` is the library, verified with Verus: a state machine that takes in the compositor's events
and says what is to be done next, with the selection of windows, the layout of the frame, the
conversion of pixels and the messages. `app/` is the program around it: the Wayland connection,
shared memory and files. The one thing that the library trusts is the PNG encoder, in
`src/image.rs`.
